use vstd::prelude::*;
use crate::config::field::{spec_with_field, with_field};

verus! {

/// Length of config word sector in words
pub const CONFIG_SECTOR_LENGTH: usize = 16;

/// Ethernet RMII/MII Enable
#[allow(non_camel_case_types)]
#[derive(Clone, Copy, Debug, PartialEq, Eq)]
pub enum FMIIEN {
    /// RMII Enabled
    OFF,

    /// MII Enabled
    ON,
}

impl FMIIEN {
    /// Value of the setting in its field of the configuration word.
    pub open spec fn value(self) -> u32 {
        match self {
            FMIIEN::OFF => 0x0,
            FMIIEN::ON => 0x1,
        }
    }

    /// Value of the setting in its field of the configuration word.
    pub fn bits(self) -> (r: u32)
        ensures
            r == self.value(),
    {
        match self {
            FMIIEN::OFF => 0x0,
            FMIIEN::ON => 0x1,
        }
    }
}

/// Ethernet I/O Pin Select
#[allow(non_camel_case_types)]
#[derive(Clone, Copy, Debug, PartialEq, Eq)]
pub enum FETHIO {
    /// Alternate Ethernet I/O
    OFF,

    /// Default Ethernet I/O
    ON,
}

impl FETHIO {
    /// Value of the setting in its field of the configuration word.
    pub open spec fn value(self) -> u32 {
        match self {
            FETHIO::OFF => 0x0,
            FETHIO::ON => 0x1,
        }
    }

    /// Value of the setting in its field of the configuration word.
    pub fn bits(self) -> (r: u32)
        ensures
            r == self.value(),
    {
        match self {
            FETHIO::OFF => 0x0,
            FETHIO::ON => 0x1,
        }
    }
}

/// Permission Group Lock One Way Configuration
#[allow(non_camel_case_types)]
#[derive(Clone, Copy, Debug, PartialEq, Eq)]
pub enum PGL1WAY {
    /// Allow only one reconfiguration
    ON,

    /// Allow multiple reconfigurations
    OFF,
}

impl PGL1WAY {
    /// Value of the setting in its field of the configuration word.
    pub open spec fn value(self) -> u32 {
        match self {
            PGL1WAY::ON => 0x1,
            PGL1WAY::OFF => 0x0,
        }
    }

    /// Value of the setting in its field of the configuration word.
    pub fn bits(self) -> (r: u32)
        ensures
            r == self.value(),
    {
        match self {
            PGL1WAY::ON => 0x1,
            PGL1WAY::OFF => 0x0,
        }
    }
}

/// Peripheral Module Disable Configuration
#[allow(non_camel_case_types)]
#[derive(Clone, Copy, Debug, PartialEq, Eq)]
pub enum PMDL1WAY {
    /// Allow only one reconfiguration
    ON,

    /// Allow multiple reconfigurations
    OFF,
}

impl PMDL1WAY {
    /// Value of the setting in its field of the configuration word.
    pub open spec fn value(self) -> u32 {
        match self {
            PMDL1WAY::ON => 0x1,
            PMDL1WAY::OFF => 0x0,
        }
    }

    /// Value of the setting in its field of the configuration word.
    pub fn bits(self) -> (r: u32)
        ensures
            r == self.value(),
    {
        match self {
            PMDL1WAY::ON => 0x1,
            PMDL1WAY::OFF => 0x0,
        }
    }
}

/// Peripheral Pin Select Configuration
#[allow(non_camel_case_types)]
#[derive(Clone, Copy, Debug, PartialEq, Eq)]
pub enum IOL1WAY {
    /// Allow only one reconfiguration
    ON,

    /// Allow multiple reconfigurations
    OFF,
}

impl IOL1WAY {
    /// Value of the setting in its field of the configuration word.
    pub open spec fn value(self) -> u32 {
        match self {
            IOL1WAY::ON => 0x1,
            IOL1WAY::OFF => 0x0,
        }
    }

    /// Value of the setting in its field of the configuration word.
    pub fn bits(self) -> (r: u32)
        ensures
            r == self.value(),
    {
        match self {
            IOL1WAY::ON => 0x1,
            IOL1WAY::OFF => 0x0,
        }
    }
}

/// USB USBID Selection
#[allow(non_camel_case_types)]
#[derive(Clone, Copy, Debug, PartialEq, Eq)]
pub enum FUSBIDIO {
    /// Controlled by Port Function
    OFF,

    /// Controlled by the USB Module
    ON,
}

impl FUSBIDIO {
    /// Value of the setting in its field of the configuration word.
    pub open spec fn value(self) -> u32 {
        match self {
            FUSBIDIO::OFF => 0x0,
            FUSBIDIO::ON => 0x1,
        }
    }

    /// Value of the setting in its field of the configuration word.
    pub fn bits(self) -> (r: u32)
        ensures
            r == self.value(),
    {
        match self {
            FUSBIDIO::OFF => 0x0,
            FUSBIDIO::ON => 0x1,
        }
    }
}

/// System PLL Input Divider
#[allow(non_camel_case_types)]
#[derive(Clone, Copy, Debug, PartialEq, Eq)]
pub enum FPLLIDIV {
    /// 1x Divider
    DIV_1,

    /// 2x Divider
    DIV_2,

    /// 3x Divider
    DIV_3,

    /// 4x Divider
    DIV_4,

    /// 5x Divider
    DIV_5,

    /// 6x Divider
    DIV_6,

    /// 7x Divider
    DIV_7,

    /// 8x Divider
    DIV_8,
}

impl FPLLIDIV {
    /// Value of the setting in its field of the configuration word.
    pub open spec fn value(self) -> u32 {
        match self {
            FPLLIDIV::DIV_1 => 0x0,
            FPLLIDIV::DIV_2 => 0x1,
            FPLLIDIV::DIV_3 => 0x2,
            FPLLIDIV::DIV_4 => 0x3,
            FPLLIDIV::DIV_5 => 0x4,
            FPLLIDIV::DIV_6 => 0x5,
            FPLLIDIV::DIV_7 => 0x6,
            FPLLIDIV::DIV_8 => 0x7,
        }
    }

    /// Value of the setting in its field of the configuration word.
    pub fn bits(self) -> (r: u32)
        ensures
            r == self.value(),
    {
        match self {
            FPLLIDIV::DIV_1 => 0x0,
            FPLLIDIV::DIV_2 => 0x1,
            FPLLIDIV::DIV_3 => 0x2,
            FPLLIDIV::DIV_4 => 0x3,
            FPLLIDIV::DIV_5 => 0x4,
            FPLLIDIV::DIV_6 => 0x5,
            FPLLIDIV::DIV_7 => 0x6,
            FPLLIDIV::DIV_8 => 0x7,
        }
    }
}

/// System PLL Input Range
#[allow(non_camel_case_types)]
#[derive(Clone, Copy, Debug, PartialEq, Eq)]
pub enum FPLLRNG {
    /// Bypass
    RANGE_BYPASS,

    /// 5-10 MHz Input
    RANGE_5_10_MHZ,

    /// 8-16 MHz Input
    RANGE_8_16_MHZ,

    /// 13-26 MHz Input
    RANGE_13_26_MHZ,

    /// 21-42 MHz Input
    RANGE_21_42_MHZ,

    /// 34-68 MHz Input
    RANGE_34_68_MHZ,
}

impl FPLLRNG {
    /// Value of the setting in its field of the configuration word.
    pub open spec fn value(self) -> u32 {
        match self {
            FPLLRNG::RANGE_BYPASS => 0x0,
            FPLLRNG::RANGE_5_10_MHZ => 0x1,
            FPLLRNG::RANGE_8_16_MHZ => 0x2,
            FPLLRNG::RANGE_13_26_MHZ => 0x3,
            FPLLRNG::RANGE_21_42_MHZ => 0x4,
            FPLLRNG::RANGE_34_68_MHZ => 0x5,
        }
    }

    /// Value of the setting in its field of the configuration word.
    pub fn bits(self) -> (r: u32)
        ensures
            r == self.value(),
    {
        match self {
            FPLLRNG::RANGE_BYPASS => 0x0,
            FPLLRNG::RANGE_5_10_MHZ => 0x1,
            FPLLRNG::RANGE_8_16_MHZ => 0x2,
            FPLLRNG::RANGE_13_26_MHZ => 0x3,
            FPLLRNG::RANGE_21_42_MHZ => 0x4,
            FPLLRNG::RANGE_34_68_MHZ => 0x5,
        }
    }
}

/// System PLL Input Clock Selection
#[allow(non_camel_case_types)]
#[derive(Clone, Copy, Debug, PartialEq, Eq)]
pub enum FPLLICLK {
    /// FRC is input to the System PLL
    PLL_FRC,

    /// POSC is input to the System PLL
    PLL_POSC,
}

impl FPLLICLK {
    /// Value of the setting in its field of the configuration word.
    pub open spec fn value(self) -> u32 {
        match self {
            FPLLICLK::PLL_FRC => 0x1,
            FPLLICLK::PLL_POSC => 0x0,
        }
    }

    /// Value of the setting in its field of the configuration word.
    pub fn bits(self) -> (r: u32)
        ensures
            r == self.value(),
    {
        match self {
            FPLLICLK::PLL_FRC => 0x1,
            FPLLICLK::PLL_POSC => 0x0,
        }
    }
}

/// System PLL Multiplier
#[allow(non_camel_case_types)]
#[derive(Clone, Copy, Debug, PartialEq, Eq)]
pub enum FPLLMULT {
    /// PLL Multiply by 1
    MUL_1,

    /// PLL Multiply by 2
    MUL_2,

    /// PLL Multiply by 3
    MUL_3,

    /// PLL Multiply by 4
    MUL_4,

    /// PLL Multiply by 5
    MUL_5,

    /// PLL Multiply by 6
    MUL_6,

    /// PLL Multiply by 7
    MUL_7,

    /// PLL Multiply by 8
    MUL_8,

    /// PLL Multiply by 9
    MUL_9,

    /// PLL Multiply by 10
    MUL_10,

    /// PLL Multiply by 11
    MUL_11,

    /// PLL Multiply by 12
    MUL_12,

    /// PLL Multiply by 13
    MUL_13,

    /// PLL Multiply by 14
    MUL_14,

    /// PLL Multiply by 15
    MUL_15,

    /// PLL Multiply by 16
    MUL_16,

    /// PLL Multiply by 17
    MUL_17,

    /// PLL Multiply by 18
    MUL_18,

    /// PLL Multiply by 19
    MUL_19,

    /// PLL Multiply by 20
    MUL_20,

    /// PLL Multiply by 21
    MUL_21,

    /// PLL Multiply by 22
    MUL_22,

    /// PLL Multiply by 23
    MUL_23,

    /// PLL Multiply by 24
    MUL_24,

    /// PLL Multiply by 25
    MUL_25,

    /// PLL Multiply by 26
    MUL_26,

    /// PLL Multiply by 27
    MUL_27,

    /// PLL Multiply by 28
    MUL_28,

    /// PLL Multiply by 29
    MUL_29,

    /// PLL Multiply by 30
    MUL_30,

    /// PLL Multiply by 31
    MUL_31,

    /// PLL Multiply by 32
    MUL_32,

    /// PLL Multiply by 33
    MUL_33,

    /// PLL Multiply by 34
    MUL_34,

    /// PLL Multiply by 35
    MUL_35,

    /// PLL Multiply by 36
    MUL_36,

    /// PLL Multiply by 37
    MUL_37,

    /// PLL Multiply by 38
    MUL_38,

    /// PLL Multiply by 39
    MUL_39,

    /// PLL Multiply by 40
    MUL_40,

    /// PLL Multiply by 41
    MUL_41,

    /// PLL Multiply by 42
    MUL_42,

    /// PLL Multiply by 43
    MUL_43,

    /// PLL Multiply by 44
    MUL_44,

    /// PLL Multiply by 45
    MUL_45,

    /// PLL Multiply by 46
    MUL_46,

    /// PLL Multiply by 47
    MUL_47,

    /// PLL Multiply by 48
    MUL_48,

    /// PLL Multiply by 49
    MUL_49,

    /// PLL Multiply by 50
    MUL_50,

    /// PLL Multiply by 51
    MUL_51,

    /// PLL Multiply by 52
    MUL_52,

    /// PLL Multiply by 53
    MUL_53,

    /// PLL Multiply by 54
    MUL_54,

    /// PLL Multiply by 55
    MUL_55,

    /// PLL Multiply by 56
    MUL_56,

    /// PLL Multiply by 57
    MUL_57,

    /// PLL Multiply by 58
    MUL_58,

    /// PLL Multiply by 59
    MUL_59,

    /// PLL Multiply by 60
    MUL_60,

    /// PLL Multiply by 61
    MUL_61,

    /// PLL Multiply by 62
    MUL_62,

    /// PLL Multiply by 63
    MUL_63,

    /// PLL Multiply by 64
    MUL_64,

    /// PLL Multiply by 65
    MUL_65,

    /// PLL Multiply by 66
    MUL_66,

    /// PLL Multiply by 67
    MUL_67,

    /// PLL Multiply by 68
    MUL_68,

    /// PLL Multiply by 69
    MUL_69,

    /// PLL Multiply by 70
    MUL_70,

    /// PLL Multiply by 71
    MUL_71,

    /// PLL Multiply by 72
    MUL_72,

    /// PLL Multiply by 73
    MUL_73,

    /// PLL Multiply by 74
    MUL_74,

    /// PLL Multiply by 75
    MUL_75,

    /// PLL Multiply by 76
    MUL_76,

    /// PLL Multiply by 77
    MUL_77,

    /// PLL Multiply by 78
    MUL_78,

    /// PLL Multiply by 79
    MUL_79,

    /// PLL Multiply by 80
    MUL_80,

    /// PLL Multiply by 81
    MUL_81,

    /// PLL Multiply by 82
    MUL_82,

    /// PLL Multiply by 83
    MUL_83,

    /// PLL Multiply by 84
    MUL_84,

    /// PLL Multiply by 85
    MUL_85,

    /// PLL Multiply by 86
    MUL_86,

    /// PLL Multiply by 87
    MUL_87,

    /// PLL Multiply by 88
    MUL_88,

    /// PLL Multiply by 89
    MUL_89,

    /// PLL Multiply by 90
    MUL_90,

    /// PLL Multiply by 91
    MUL_91,

    /// PLL Multiply by 92
    MUL_92,

    /// PLL Multiply by 93
    MUL_93,

    /// PLL Multiply by 94
    MUL_94,

    /// PLL Multiply by 95
    MUL_95,

    /// PLL Multiply by 96
    MUL_96,

    /// PLL Multiply by 97
    MUL_97,

    /// PLL Multiply by 98
    MUL_98,

    /// PLL Multiply by 99
    MUL_99,

    /// PLL Multiply by 100
    MUL_100,

    /// PLL Multiply by 101
    MUL_101,

    /// PLL Multiply by 102
    MUL_102,

    /// PLL Multiply by 103
    MUL_103,

    /// PLL Multiply by 104
    MUL_104,

    /// PLL Multiply by 105
    MUL_105,

    /// PLL Multiply by 106
    MUL_106,

    /// PLL Multiply by 107
    MUL_107,

    /// PLL Multiply by 108
    MUL_108,

    /// PLL Multiply by 109
    MUL_109,

    /// PLL Multiply by 110
    MUL_110,

    /// PLL Multiply by 111
    MUL_111,

    /// PLL Multiply by 112
    MUL_112,

    /// PLL Multiply by 113
    MUL_113,

    /// PLL Multiply by 114
    MUL_114,

    /// PLL Multiply by 115
    MUL_115,

    /// PLL Multiply by 116
    MUL_116,

    /// PLL Multiply by 117
    MUL_117,

    /// PLL Multiply by 118
    MUL_118,

    /// PLL Multiply by 119
    MUL_119,

    /// PLL Multiply by 120
    MUL_120,

    /// PLL Multiply by 121
    MUL_121,

    /// PLL Multiply by 122
    MUL_122,

    /// PLL Multiply by 123
    MUL_123,

    /// PLL Multiply by 124
    MUL_124,

    /// PLL Multiply by 125
    MUL_125,

    /// PLL Multiply by 126
    MUL_126,

    /// PLL Multiply by 127
    MUL_127,

    /// PLL Multiply by 128
    MUL_128,
}

impl FPLLMULT {
    /// Value of the setting in its field of the configuration word.
    pub open spec fn value(self) -> u32 {
        match self {
            FPLLMULT::MUL_1 => 0x0,
            FPLLMULT::MUL_2 => 0x1,
            FPLLMULT::MUL_3 => 0x2,
            FPLLMULT::MUL_4 => 0x3,
            FPLLMULT::MUL_5 => 0x4,
            FPLLMULT::MUL_6 => 0x5,
            FPLLMULT::MUL_7 => 0x6,
            FPLLMULT::MUL_8 => 0x7,
            FPLLMULT::MUL_9 => 0x8,
            FPLLMULT::MUL_10 => 0x9,
            FPLLMULT::MUL_11 => 0xa,
            FPLLMULT::MUL_12 => 0xb,
            FPLLMULT::MUL_13 => 0xc,
            FPLLMULT::MUL_14 => 0xd,
            FPLLMULT::MUL_15 => 0xe,
            FPLLMULT::MUL_16 => 0xf,
            FPLLMULT::MUL_17 => 0x10,
            FPLLMULT::MUL_18 => 0x11,
            FPLLMULT::MUL_19 => 0x12,
            FPLLMULT::MUL_20 => 0x13,
            FPLLMULT::MUL_21 => 0x14,
            FPLLMULT::MUL_22 => 0x15,
            FPLLMULT::MUL_23 => 0x16,
            FPLLMULT::MUL_24 => 0x17,
            FPLLMULT::MUL_25 => 0x18,
            FPLLMULT::MUL_26 => 0x19,
            FPLLMULT::MUL_27 => 0x1a,
            FPLLMULT::MUL_28 => 0x1b,
            FPLLMULT::MUL_29 => 0x1c,
            FPLLMULT::MUL_30 => 0x1d,
            FPLLMULT::MUL_31 => 0x1e,
            FPLLMULT::MUL_32 => 0x1f,
            FPLLMULT::MUL_33 => 0x20,
            FPLLMULT::MUL_34 => 0x21,
            FPLLMULT::MUL_35 => 0x22,
            FPLLMULT::MUL_36 => 0x23,
            FPLLMULT::MUL_37 => 0x24,
            FPLLMULT::MUL_38 => 0x25,
            FPLLMULT::MUL_39 => 0x26,
            FPLLMULT::MUL_40 => 0x27,
            FPLLMULT::MUL_41 => 0x28,
            FPLLMULT::MUL_42 => 0x29,
            FPLLMULT::MUL_43 => 0x2a,
            FPLLMULT::MUL_44 => 0x2b,
            FPLLMULT::MUL_45 => 0x2c,
            FPLLMULT::MUL_46 => 0x2d,
            FPLLMULT::MUL_47 => 0x2e,
            FPLLMULT::MUL_48 => 0x2f,
            FPLLMULT::MUL_49 => 0x30,
            FPLLMULT::MUL_50 => 0x31,
            FPLLMULT::MUL_51 => 0x32,
            FPLLMULT::MUL_52 => 0x33,
            FPLLMULT::MUL_53 => 0x34,
            FPLLMULT::MUL_54 => 0x35,
            FPLLMULT::MUL_55 => 0x36,
            FPLLMULT::MUL_56 => 0x37,
            FPLLMULT::MUL_57 => 0x38,
            FPLLMULT::MUL_58 => 0x39,
            FPLLMULT::MUL_59 => 0x3a,
            FPLLMULT::MUL_60 => 0x3b,
            FPLLMULT::MUL_61 => 0x3c,
            FPLLMULT::MUL_62 => 0x3d,
            FPLLMULT::MUL_63 => 0x3e,
            FPLLMULT::MUL_64 => 0x3f,
            FPLLMULT::MUL_65 => 0x40,
            FPLLMULT::MUL_66 => 0x41,
            FPLLMULT::MUL_67 => 0x42,
            FPLLMULT::MUL_68 => 0x43,
            FPLLMULT::MUL_69 => 0x44,
            FPLLMULT::MUL_70 => 0x45,
            FPLLMULT::MUL_71 => 0x46,
            FPLLMULT::MUL_72 => 0x47,
            FPLLMULT::MUL_73 => 0x48,
            FPLLMULT::MUL_74 => 0x49,
            FPLLMULT::MUL_75 => 0x4a,
            FPLLMULT::MUL_76 => 0x4b,
            FPLLMULT::MUL_77 => 0x4c,
            FPLLMULT::MUL_78 => 0x4d,
            FPLLMULT::MUL_79 => 0x4e,
            FPLLMULT::MUL_80 => 0x4f,
            FPLLMULT::MUL_81 => 0x50,
            FPLLMULT::MUL_82 => 0x51,
            FPLLMULT::MUL_83 => 0x52,
            FPLLMULT::MUL_84 => 0x53,
            FPLLMULT::MUL_85 => 0x54,
            FPLLMULT::MUL_86 => 0x55,
            FPLLMULT::MUL_87 => 0x56,
            FPLLMULT::MUL_88 => 0x57,
            FPLLMULT::MUL_89 => 0x58,
            FPLLMULT::MUL_90 => 0x59,
            FPLLMULT::MUL_91 => 0x5a,
            FPLLMULT::MUL_92 => 0x5b,
            FPLLMULT::MUL_93 => 0x5c,
            FPLLMULT::MUL_94 => 0x5d,
            FPLLMULT::MUL_95 => 0x5e,
            FPLLMULT::MUL_96 => 0x5f,
            FPLLMULT::MUL_97 => 0x60,
            FPLLMULT::MUL_98 => 0x61,
            FPLLMULT::MUL_99 => 0x62,
            FPLLMULT::MUL_100 => 0x63,
            FPLLMULT::MUL_101 => 0x64,
            FPLLMULT::MUL_102 => 0x65,
            FPLLMULT::MUL_103 => 0x66,
            FPLLMULT::MUL_104 => 0x67,
            FPLLMULT::MUL_105 => 0x68,
            FPLLMULT::MUL_106 => 0x69,
            FPLLMULT::MUL_107 => 0x6a,
            FPLLMULT::MUL_108 => 0x6b,
            FPLLMULT::MUL_109 => 0x6c,
            FPLLMULT::MUL_110 => 0x6d,
            FPLLMULT::MUL_111 => 0x6e,
            FPLLMULT::MUL_112 => 0x6f,
            FPLLMULT::MUL_113 => 0x70,
            FPLLMULT::MUL_114 => 0x71,
            FPLLMULT::MUL_115 => 0x72,
            FPLLMULT::MUL_116 => 0x73,
            FPLLMULT::MUL_117 => 0x74,
            FPLLMULT::MUL_118 => 0x75,
            FPLLMULT::MUL_119 => 0x76,
            FPLLMULT::MUL_120 => 0x77,
            FPLLMULT::MUL_121 => 0x78,
            FPLLMULT::MUL_122 => 0x79,
            FPLLMULT::MUL_123 => 0x7a,
            FPLLMULT::MUL_124 => 0x7b,
            FPLLMULT::MUL_125 => 0x7c,
            FPLLMULT::MUL_126 => 0x7d,
            FPLLMULT::MUL_127 => 0x7e,
            FPLLMULT::MUL_128 => 0x7f,
        }
    }

    /// Value of the setting in its field of the configuration word.
    pub fn bits(self) -> (r: u32)
        ensures
            r == self.value(),
    {
        match self {
            FPLLMULT::MUL_1 => 0x0,
            FPLLMULT::MUL_2 => 0x1,
            FPLLMULT::MUL_3 => 0x2,
            FPLLMULT::MUL_4 => 0x3,
            FPLLMULT::MUL_5 => 0x4,
            FPLLMULT::MUL_6 => 0x5,
            FPLLMULT::MUL_7 => 0x6,
            FPLLMULT::MUL_8 => 0x7,
            FPLLMULT::MUL_9 => 0x8,
            FPLLMULT::MUL_10 => 0x9,
            FPLLMULT::MUL_11 => 0xa,
            FPLLMULT::MUL_12 => 0xb,
            FPLLMULT::MUL_13 => 0xc,
            FPLLMULT::MUL_14 => 0xd,
            FPLLMULT::MUL_15 => 0xe,
            FPLLMULT::MUL_16 => 0xf,
            FPLLMULT::MUL_17 => 0x10,
            FPLLMULT::MUL_18 => 0x11,
            FPLLMULT::MUL_19 => 0x12,
            FPLLMULT::MUL_20 => 0x13,
            FPLLMULT::MUL_21 => 0x14,
            FPLLMULT::MUL_22 => 0x15,
            FPLLMULT::MUL_23 => 0x16,
            FPLLMULT::MUL_24 => 0x17,
            FPLLMULT::MUL_25 => 0x18,
            FPLLMULT::MUL_26 => 0x19,
            FPLLMULT::MUL_27 => 0x1a,
            FPLLMULT::MUL_28 => 0x1b,
            FPLLMULT::MUL_29 => 0x1c,
            FPLLMULT::MUL_30 => 0x1d,
            FPLLMULT::MUL_31 => 0x1e,
            FPLLMULT::MUL_32 => 0x1f,
            FPLLMULT::MUL_33 => 0x20,
            FPLLMULT::MUL_34 => 0x21,
            FPLLMULT::MUL_35 => 0x22,
            FPLLMULT::MUL_36 => 0x23,
            FPLLMULT::MUL_37 => 0x24,
            FPLLMULT::MUL_38 => 0x25,
            FPLLMULT::MUL_39 => 0x26,
            FPLLMULT::MUL_40 => 0x27,
            FPLLMULT::MUL_41 => 0x28,
            FPLLMULT::MUL_42 => 0x29,
            FPLLMULT::MUL_43 => 0x2a,
            FPLLMULT::MUL_44 => 0x2b,
            FPLLMULT::MUL_45 => 0x2c,
            FPLLMULT::MUL_46 => 0x2d,
            FPLLMULT::MUL_47 => 0x2e,
            FPLLMULT::MUL_48 => 0x2f,
            FPLLMULT::MUL_49 => 0x30,
            FPLLMULT::MUL_50 => 0x31,
            FPLLMULT::MUL_51 => 0x32,
            FPLLMULT::MUL_52 => 0x33,
            FPLLMULT::MUL_53 => 0x34,
            FPLLMULT::MUL_54 => 0x35,
            FPLLMULT::MUL_55 => 0x36,
            FPLLMULT::MUL_56 => 0x37,
            FPLLMULT::MUL_57 => 0x38,
            FPLLMULT::MUL_58 => 0x39,
            FPLLMULT::MUL_59 => 0x3a,
            FPLLMULT::MUL_60 => 0x3b,
            FPLLMULT::MUL_61 => 0x3c,
            FPLLMULT::MUL_62 => 0x3d,
            FPLLMULT::MUL_63 => 0x3e,
            FPLLMULT::MUL_64 => 0x3f,
            FPLLMULT::MUL_65 => 0x40,
            FPLLMULT::MUL_66 => 0x41,
            FPLLMULT::MUL_67 => 0x42,
            FPLLMULT::MUL_68 => 0x43,
            FPLLMULT::MUL_69 => 0x44,
            FPLLMULT::MUL_70 => 0x45,
            FPLLMULT::MUL_71 => 0x46,
            FPLLMULT::MUL_72 => 0x47,
            FPLLMULT::MUL_73 => 0x48,
            FPLLMULT::MUL_74 => 0x49,
            FPLLMULT::MUL_75 => 0x4a,
            FPLLMULT::MUL_76 => 0x4b,
            FPLLMULT::MUL_77 => 0x4c,
            FPLLMULT::MUL_78 => 0x4d,
            FPLLMULT::MUL_79 => 0x4e,
            FPLLMULT::MUL_80 => 0x4f,
            FPLLMULT::MUL_81 => 0x50,
            FPLLMULT::MUL_82 => 0x51,
            FPLLMULT::MUL_83 => 0x52,
            FPLLMULT::MUL_84 => 0x53,
            FPLLMULT::MUL_85 => 0x54,
            FPLLMULT::MUL_86 => 0x55,
            FPLLMULT::MUL_87 => 0x56,
            FPLLMULT::MUL_88 => 0x57,
            FPLLMULT::MUL_89 => 0x58,
            FPLLMULT::MUL_90 => 0x59,
            FPLLMULT::MUL_91 => 0x5a,
            FPLLMULT::MUL_92 => 0x5b,
            FPLLMULT::MUL_93 => 0x5c,
            FPLLMULT::MUL_94 => 0x5d,
            FPLLMULT::MUL_95 => 0x5e,
            FPLLMULT::MUL_96 => 0x5f,
            FPLLMULT::MUL_97 => 0x60,
            FPLLMULT::MUL_98 => 0x61,
            FPLLMULT::MUL_99 => 0x62,
            FPLLMULT::MUL_100 => 0x63,
            FPLLMULT::MUL_101 => 0x64,
            FPLLMULT::MUL_102 => 0x65,
            FPLLMULT::MUL_103 => 0x66,
            FPLLMULT::MUL_104 => 0x67,
            FPLLMULT::MUL_105 => 0x68,
            FPLLMULT::MUL_106 => 0x69,
            FPLLMULT::MUL_107 => 0x6a,
            FPLLMULT::MUL_108 => 0x6b,
            FPLLMULT::MUL_109 => 0x6c,
            FPLLMULT::MUL_110 => 0x6d,
            FPLLMULT::MUL_111 => 0x6e,
            FPLLMULT::MUL_112 => 0x6f,
            FPLLMULT::MUL_113 => 0x70,
            FPLLMULT::MUL_114 => 0x71,
            FPLLMULT::MUL_115 => 0x72,
            FPLLMULT::MUL_116 => 0x73,
            FPLLMULT::MUL_117 => 0x74,
            FPLLMULT::MUL_118 => 0x75,
            FPLLMULT::MUL_119 => 0x76,
            FPLLMULT::MUL_120 => 0x77,
            FPLLMULT::MUL_121 => 0x78,
            FPLLMULT::MUL_122 => 0x79,
            FPLLMULT::MUL_123 => 0x7a,
            FPLLMULT::MUL_124 => 0x7b,
            FPLLMULT::MUL_125 => 0x7c,
            FPLLMULT::MUL_126 => 0x7d,
            FPLLMULT::MUL_127 => 0x7e,
            FPLLMULT::MUL_128 => 0x7f,
        }
    }
}

/// System PLL Output Clock Divider
#[allow(non_camel_case_types)]
#[derive(Clone, Copy, Debug, PartialEq, Eq)]
pub enum FPLLODIV {
    /// 2x Divider
    DIV_2,

    /// 4x Divider
    DIV_4,

    /// 8x Divider
    DIV_8,

    /// 16x Divider
    DIV_16,

    /// 32x Divider
    DIV_32,
}

impl FPLLODIV {
    /// Value of the setting in its field of the configuration word.
    pub open spec fn value(self) -> u32 {
        match self {
            FPLLODIV::DIV_2 => 0x1,
            FPLLODIV::DIV_4 => 0x2,
            FPLLODIV::DIV_8 => 0x3,
            FPLLODIV::DIV_16 => 0x4,
            FPLLODIV::DIV_32 => 0x7,
        }
    }

    /// Value of the setting in its field of the configuration word.
    pub fn bits(self) -> (r: u32)
        ensures
            r == self.value(),
    {
        match self {
            FPLLODIV::DIV_2 => 0x1,
            FPLLODIV::DIV_4 => 0x2,
            FPLLODIV::DIV_8 => 0x3,
            FPLLODIV::DIV_16 => 0x4,
            FPLLODIV::DIV_32 => 0x7,
        }
    }
}

/// USB PLL Input Frequency Selection
#[allow(non_camel_case_types)]
#[derive(Clone, Copy, Debug, PartialEq, Eq)]
pub enum UPLLFSEL {
    /// USB PLL input is 24 MHz
    FREQ_24MHZ,

    /// USB PLL input is 12 MHz
    FREQ_12MHZ,
}

impl UPLLFSEL {
    /// Value of the setting in its field of the configuration word.
    pub open spec fn value(self) -> u32 {
        match self {
            UPLLFSEL::FREQ_24MHZ => 0x1,
            UPLLFSEL::FREQ_12MHZ => 0x0,
        }
    }

    /// Value of the setting in its field of the configuration word.
    pub fn bits(self) -> (r: u32)
        ensures
            r == self.value(),
    {
        match self {
            UPLLFSEL::FREQ_24MHZ => 0x1,
            UPLLFSEL::FREQ_12MHZ => 0x0,
        }
    }
}

/// Oscillator Selection Bits
#[allow(non_camel_case_types)]
#[derive(Clone, Copy, Debug, PartialEq, Eq)]
pub enum FNOSC {
    /// Fast RC Osc w/Div-by-N (FRCDIV)
    FRCDIV,

    /// System PLL
    SPLL,

    /// Primary Osc (HS,EC)
    POSC,

    /// Low Power Secondary Osc (SOSC)
    SOSC,

    /// Low Power RC Osc (LPRC)
    LPRC,
}

impl FNOSC {
    /// Value of the setting in its field of the configuration word.
    pub open spec fn value(self) -> u32 {
        match self {
            FNOSC::FRCDIV => 0x7,
            FNOSC::SPLL => 0x1,
            FNOSC::POSC => 0x2,
            FNOSC::SOSC => 0x4,
            FNOSC::LPRC => 0x5,
        }
    }

    /// Value of the setting in its field of the configuration word.
    pub fn bits(self) -> (r: u32)
        ensures
            r == self.value(),
    {
        match self {
            FNOSC::FRCDIV => 0x7,
            FNOSC::SPLL => 0x1,
            FNOSC::POSC => 0x2,
            FNOSC::SOSC => 0x4,
            FNOSC::LPRC => 0x5,
        }
    }
}

/// DMT Count Window Interval
#[allow(non_camel_case_types)]
#[derive(Clone, Copy, Debug, PartialEq, Eq)]
pub enum DMTINTV {
    /// Window/Interval value is zero
    WIN_0,

    /// Window/Interval value is 1/2 counter value
    WIN_1_2,

    /// Window/Interval value is 3/4 counter value
    WIN_3_4,

    /// Window/Interval value is 7/8 counter value
    WIN_7_8,

    /// Window/Interval value is 15/16 counter value
    WIN_15_16,

    /// Window/Interval value is 31/32 counter value
    WIN_31_32,

    /// Window/Interval value is 63/64 counter value
    WIN_63_64,

    /// Window/Interval value is 127/128 counter value
    WIN_127_128,
}

impl DMTINTV {
    /// Value of the setting in its field of the configuration word.
    pub open spec fn value(self) -> u32 {
        match self {
            DMTINTV::WIN_0 => 0x0,
            DMTINTV::WIN_1_2 => 0x1,
            DMTINTV::WIN_3_4 => 0x2,
            DMTINTV::WIN_7_8 => 0x3,
            DMTINTV::WIN_15_16 => 0x4,
            DMTINTV::WIN_31_32 => 0x5,
            DMTINTV::WIN_63_64 => 0x6,
            DMTINTV::WIN_127_128 => 0x7,
        }
    }

    /// Value of the setting in its field of the configuration word.
    pub fn bits(self) -> (r: u32)
        ensures
            r == self.value(),
    {
        match self {
            DMTINTV::WIN_0 => 0x0,
            DMTINTV::WIN_1_2 => 0x1,
            DMTINTV::WIN_3_4 => 0x2,
            DMTINTV::WIN_7_8 => 0x3,
            DMTINTV::WIN_15_16 => 0x4,
            DMTINTV::WIN_31_32 => 0x5,
            DMTINTV::WIN_63_64 => 0x6,
            DMTINTV::WIN_127_128 => 0x7,
        }
    }
}

/// Secondary Oscillator Enable
#[allow(non_camel_case_types)]
#[derive(Clone, Copy, Debug, PartialEq, Eq)]
pub enum FSOSCEN {
    /// Disable SOSC
    OFF,

    /// Enable SOSC
    ON,
}

impl FSOSCEN {
    /// Value of the setting in its field of the configuration word.
    pub open spec fn value(self) -> u32 {
        match self {
            FSOSCEN::OFF => 0x0,
            FSOSCEN::ON => 0x1,
        }
    }

    /// Value of the setting in its field of the configuration word.
    pub fn bits(self) -> (r: u32)
        ensures
            r == self.value(),
    {
        match self {
            FSOSCEN::OFF => 0x0,
            FSOSCEN::ON => 0x1,
        }
    }
}

/// Internal/External Switch Over
#[allow(non_camel_case_types)]
#[derive(Clone, Copy, Debug, PartialEq, Eq)]
pub enum IESO {
    /// Disabled
    OFF,

    /// Enabled
    ON,
}

impl IESO {
    /// Value of the setting in its field of the configuration word.
    pub open spec fn value(self) -> u32 {
        match self {
            IESO::OFF => 0x0,
            IESO::ON => 0x1,
        }
    }

    /// Value of the setting in its field of the configuration word.
    pub fn bits(self) -> (r: u32)
        ensures
            r == self.value(),
    {
        match self {
            IESO::OFF => 0x0,
            IESO::ON => 0x1,
        }
    }
}

/// Primary Oscillator Configuration
#[allow(non_camel_case_types)]
#[derive(Clone, Copy, Debug, PartialEq, Eq)]
pub enum POSCMOD {
    /// External clock mode
    EC,

    /// HS osc mode
    HS,

    /// Primary osc disabled
    OFF,
}

impl POSCMOD {
    /// Value of the setting in its field of the configuration word.
    pub open spec fn value(self) -> u32 {
        match self {
            POSCMOD::EC => 0x0,
            POSCMOD::HS => 0x2,
            POSCMOD::OFF => 0x3,
        }
    }

    /// Value of the setting in its field of the configuration word.
    pub fn bits(self) -> (r: u32)
        ensures
            r == self.value(),
    {
        match self {
            POSCMOD::EC => 0x0,
            POSCMOD::HS => 0x2,
            POSCMOD::OFF => 0x3,
        }
    }
}

/// CLKO Output Signal Active on the OSCO Pin
#[allow(non_camel_case_types)]
#[derive(Clone, Copy, Debug, PartialEq, Eq)]
pub enum OSCIOFNC {
    /// Disabled
    OFF,

    /// Enabled
    ON,
}

impl OSCIOFNC {
    /// Value of the setting in its field of the configuration word.
    pub open spec fn value(self) -> u32 {
        match self {
            OSCIOFNC::OFF => 0x1,
            OSCIOFNC::ON => 0x0,
        }
    }

    /// Value of the setting in its field of the configuration word.
    pub fn bits(self) -> (r: u32)
        ensures
            r == self.value(),
    {
        match self {
            OSCIOFNC::OFF => 0x1,
            OSCIOFNC::ON => 0x0,
        }
    }
}

/// Clock Switching and Monitor Selection
#[allow(non_camel_case_types)]
#[derive(Clone, Copy, Debug, PartialEq, Eq)]
pub enum FCKSM {
    /// Clock Switch Disabled, FSCM Disabled
    CSDCMD,

    /// Clock Switch Enabled, FSCM Disabled
    CSECMD,

    /// Clock Switch Disabled, FSCM Enabled
    CSDCME,

    /// Clock Switch Enabled, FSCM Enabled
    CSECME,
}

impl FCKSM {
    /// Value of the setting in its field of the configuration word.
    pub open spec fn value(self) -> u32 {
        match self {
            FCKSM::CSDCMD => 0x0,
            FCKSM::CSECMD => 0x1,
            FCKSM::CSDCME => 0x2,
            FCKSM::CSECME => 0x3,
        }
    }

    /// Value of the setting in its field of the configuration word.
    pub fn bits(self) -> (r: u32)
        ensures
            r == self.value(),
    {
        match self {
            FCKSM::CSDCMD => 0x0,
            FCKSM::CSECMD => 0x1,
            FCKSM::CSDCME => 0x2,
            FCKSM::CSECME => 0x3,
        }
    }
}

/// Watchdog Timer Postscaler
#[allow(non_camel_case_types)]
#[derive(Clone, Copy, Debug, PartialEq, Eq)]
pub enum WDTPS {
    /// 1:1
    PS1,

    /// 1:2
    PS2,

    /// 1:4
    PS4,

    /// 1:8
    PS8,

    /// 1:16
    PS16,

    /// 1:32
    PS32,

    /// 1:64
    PS64,

    /// 1:128
    PS128,

    /// 1:256
    PS256,

    /// 1:512
    PS512,

    /// 1:1024
    PS1024,

    /// 1:2048
    PS2048,

    /// 1:4096
    PS4096,

    /// 1:8192
    PS8192,

    /// 1:16384
    PS16384,

    /// 1:32768
    PS32768,

    /// 1:65536
    PS65536,

    /// 1:131072
    PS131072,

    /// 1:262144
    PS262144,

    /// 1:524288
    PS524288,

    /// 1:1048576
    PS1048576,
}

impl WDTPS {
    /// Value of the setting in its field of the configuration word.
    pub open spec fn value(self) -> u32 {
        match self {
            WDTPS::PS1 => 0x0,
            WDTPS::PS2 => 0x1,
            WDTPS::PS4 => 0x2,
            WDTPS::PS8 => 0x3,
            WDTPS::PS16 => 0x4,
            WDTPS::PS32 => 0x5,
            WDTPS::PS64 => 0x6,
            WDTPS::PS128 => 0x7,
            WDTPS::PS256 => 0x8,
            WDTPS::PS512 => 0x9,
            WDTPS::PS1024 => 0xa,
            WDTPS::PS2048 => 0xb,
            WDTPS::PS4096 => 0xc,
            WDTPS::PS8192 => 0xd,
            WDTPS::PS16384 => 0xe,
            WDTPS::PS32768 => 0xf,
            WDTPS::PS65536 => 0x10,
            WDTPS::PS131072 => 0x11,
            WDTPS::PS262144 => 0x12,
            WDTPS::PS524288 => 0x13,
            WDTPS::PS1048576 => 0x14,
        }
    }

    /// Value of the setting in its field of the configuration word.
    pub fn bits(self) -> (r: u32)
        ensures
            r == self.value(),
    {
        match self {
            WDTPS::PS1 => 0x0,
            WDTPS::PS2 => 0x1,
            WDTPS::PS4 => 0x2,
            WDTPS::PS8 => 0x3,
            WDTPS::PS16 => 0x4,
            WDTPS::PS32 => 0x5,
            WDTPS::PS64 => 0x6,
            WDTPS::PS128 => 0x7,
            WDTPS::PS256 => 0x8,
            WDTPS::PS512 => 0x9,
            WDTPS::PS1024 => 0xa,
            WDTPS::PS2048 => 0xb,
            WDTPS::PS4096 => 0xc,
            WDTPS::PS8192 => 0xd,
            WDTPS::PS16384 => 0xe,
            WDTPS::PS32768 => 0xf,
            WDTPS::PS65536 => 0x10,
            WDTPS::PS131072 => 0x11,
            WDTPS::PS262144 => 0x12,
            WDTPS::PS524288 => 0x13,
            WDTPS::PS1048576 => 0x14,
        }
    }
}

/// Watchdog Timer Stop During Flash Programming
#[allow(non_camel_case_types)]
#[derive(Clone, Copy, Debug, PartialEq, Eq)]
pub enum WDTSPGM {
    /// WDT runs during Flash programming
    RUN,

    /// WDT stops during Flash programming
    STOP,
}

impl WDTSPGM {
    /// Value of the setting in its field of the configuration word.
    pub open spec fn value(self) -> u32 {
        match self {
            WDTSPGM::RUN => 0x0,
            WDTSPGM::STOP => 0x1,
        }
    }

    /// Value of the setting in its field of the configuration word.
    pub fn bits(self) -> (r: u32)
        ensures
            r == self.value(),
    {
        match self {
            WDTSPGM::RUN => 0x0,
            WDTSPGM::STOP => 0x1,
        }
    }
}

/// Watchdog Timer Window Mode
#[allow(non_camel_case_types)]
#[derive(Clone, Copy, Debug, PartialEq, Eq)]
pub enum WINDIS {
    /// Watchdog Timer is in non-Window mode
    NORMAL,

    /// Watchdog Timer is in Window mode
    WINDOW,
}

impl WINDIS {
    /// Value of the setting in its field of the configuration word.
    pub open spec fn value(self) -> u32 {
        match self {
            WINDIS::NORMAL => 0x1,
            WINDIS::WINDOW => 0x0,
        }
    }

    /// Value of the setting in its field of the configuration word.
    pub fn bits(self) -> (r: u32)
        ensures
            r == self.value(),
    {
        match self {
            WINDIS::NORMAL => 0x1,
            WINDIS::WINDOW => 0x0,
        }
    }
}

/// Watchdog Timer Enable
#[allow(non_camel_case_types)]
#[derive(Clone, Copy, Debug, PartialEq, Eq)]
pub enum FWDTEN {
    /// WDT Disabled
    OFF,

    /// WDT Enabled
    ON,
}

impl FWDTEN {
    /// Value of the setting in its field of the configuration word.
    pub open spec fn value(self) -> u32 {
        match self {
            FWDTEN::OFF => 0x0,
            FWDTEN::ON => 0x1,
        }
    }

    /// Value of the setting in its field of the configuration word.
    pub fn bits(self) -> (r: u32)
        ensures
            r == self.value(),
    {
        match self {
            FWDTEN::OFF => 0x0,
            FWDTEN::ON => 0x1,
        }
    }
}

/// Watchdog Timer Window Size
#[allow(non_camel_case_types)]
#[derive(Clone, Copy, Debug, PartialEq, Eq)]
pub enum FWDTWINSZ {
    /// Window size is 25%
    WINSZ_25,

    /// Window size is 37.5%
    WINSZ_37,

    /// Window size is 50%
    WINSZ_50,

    /// Window size is 75%
    WINSZ_75,
}

impl FWDTWINSZ {
    /// Value of the setting in its field of the configuration word.
    pub open spec fn value(self) -> u32 {
        match self {
            FWDTWINSZ::WINSZ_25 => 0x3,
            FWDTWINSZ::WINSZ_37 => 0x2,
            FWDTWINSZ::WINSZ_50 => 0x1,
            FWDTWINSZ::WINSZ_75 => 0x0,
        }
    }

    /// Value of the setting in its field of the configuration word.
    pub fn bits(self) -> (r: u32)
        ensures
            r == self.value(),
    {
        match self {
            FWDTWINSZ::WINSZ_25 => 0x3,
            FWDTWINSZ::WINSZ_37 => 0x2,
            FWDTWINSZ::WINSZ_50 => 0x1,
            FWDTWINSZ::WINSZ_75 => 0x0,
        }
    }
}

/// Deadman Timer Count Selection
#[allow(non_camel_case_types)]
#[derive(Clone, Copy, Debug, PartialEq, Eq)]
pub enum DMTCNT {
    /// 2^8 (256)
    DMT8,

    /// 2^9 (512)
    DMT9,

    /// 2^10 (1024)
    DMT10,

    /// 2^11 (2048)
    DMT11,

    /// 2^12 (4096)
    DMT12,

    /// 2^13 (8192)
    DMT13,

    /// 2^14 (16384)
    DMT14,

    /// 2^15 (32768)
    DMT15,

    /// 2^16 (65536)
    DMT16,

    /// 2^17 (131072)
    DMT17,

    /// 2^18 (262144)
    DMT18,

    /// 2^19 (524288)
    DMT19,

    /// 2^20 (1048576)
    DMT20,

    /// 2^21 (2097152)
    DMT21,

    /// 2^22 (4194304)
    DMT22,

    /// 2^23 (8388608)
    DMT23,

    /// 2^24 (16777216)
    DMT24,

    /// 2^25 (33554432)
    DMT25,

    /// 2^26 (67108864)
    DMT26,

    /// 2^27 (134217728)
    DMT27,

    /// 2^28 (268435456)
    DMT28,

    /// 2^29 (536870912)
    DMT29,

    /// 2^30 (1073741824)
    DMT30,

    /// 2^31 (2147483648)
    DMT31,
}

impl DMTCNT {
    /// Value of the setting in its field of the configuration word.
    pub open spec fn value(self) -> u32 {
        match self {
            DMTCNT::DMT8 => 0x0,
            DMTCNT::DMT9 => 0x1,
            DMTCNT::DMT10 => 0x2,
            DMTCNT::DMT11 => 0x3,
            DMTCNT::DMT12 => 0x4,
            DMTCNT::DMT13 => 0x5,
            DMTCNT::DMT14 => 0x6,
            DMTCNT::DMT15 => 0x7,
            DMTCNT::DMT16 => 0x8,
            DMTCNT::DMT17 => 0x9,
            DMTCNT::DMT18 => 0xa,
            DMTCNT::DMT19 => 0xb,
            DMTCNT::DMT20 => 0xc,
            DMTCNT::DMT21 => 0xd,
            DMTCNT::DMT22 => 0xe,
            DMTCNT::DMT23 => 0xf,
            DMTCNT::DMT24 => 0x10,
            DMTCNT::DMT25 => 0x11,
            DMTCNT::DMT26 => 0x12,
            DMTCNT::DMT27 => 0x13,
            DMTCNT::DMT28 => 0x14,
            DMTCNT::DMT29 => 0x15,
            DMTCNT::DMT30 => 0x16,
            DMTCNT::DMT31 => 0x17,
        }
    }

    /// Value of the setting in its field of the configuration word.
    pub fn bits(self) -> (r: u32)
        ensures
            r == self.value(),
    {
        match self {
            DMTCNT::DMT8 => 0x0,
            DMTCNT::DMT9 => 0x1,
            DMTCNT::DMT10 => 0x2,
            DMTCNT::DMT11 => 0x3,
            DMTCNT::DMT12 => 0x4,
            DMTCNT::DMT13 => 0x5,
            DMTCNT::DMT14 => 0x6,
            DMTCNT::DMT15 => 0x7,
            DMTCNT::DMT16 => 0x8,
            DMTCNT::DMT17 => 0x9,
            DMTCNT::DMT18 => 0xa,
            DMTCNT::DMT19 => 0xb,
            DMTCNT::DMT20 => 0xc,
            DMTCNT::DMT21 => 0xd,
            DMTCNT::DMT22 => 0xe,
            DMTCNT::DMT23 => 0xf,
            DMTCNT::DMT24 => 0x10,
            DMTCNT::DMT25 => 0x11,
            DMTCNT::DMT26 => 0x12,
            DMTCNT::DMT27 => 0x13,
            DMTCNT::DMT28 => 0x14,
            DMTCNT::DMT29 => 0x15,
            DMTCNT::DMT30 => 0x16,
            DMTCNT::DMT31 => 0x17,
        }
    }
}

/// Deadman Timer Enable
#[allow(non_camel_case_types)]
#[derive(Clone, Copy, Debug, PartialEq, Eq)]
pub enum FDMTEN {
    /// Deadman Timer is enabled
    ON,

    /// Deadman Timer is disabled
    OFF,
}

impl FDMTEN {
    /// Value of the setting in its field of the configuration word.
    pub open spec fn value(self) -> u32 {
        match self {
            FDMTEN::ON => 0x1,
            FDMTEN::OFF => 0x0,
        }
    }

    /// Value of the setting in its field of the configuration word.
    pub fn bits(self) -> (r: u32)
        ensures
            r == self.value(),
    {
        match self {
            FDMTEN::ON => 0x1,
            FDMTEN::OFF => 0x0,
        }
    }
}

/// JTAG Enable
#[allow(non_camel_case_types)]
#[derive(Clone, Copy, Debug, PartialEq, Eq)]
pub enum JTAGEN {
    /// JTAG Port Enabled
    ON,

    /// JTAG Disabled
    OFF,
}

impl JTAGEN {
    /// Value of the setting in its field of the configuration word.
    pub open spec fn value(self) -> u32 {
        match self {
            JTAGEN::ON => 0x1,
            JTAGEN::OFF => 0x0,
        }
    }

    /// Value of the setting in its field of the configuration word.
    pub fn bits(self) -> (r: u32)
        ensures
            r == self.value(),
    {
        match self {
            JTAGEN::ON => 0x1,
            JTAGEN::OFF => 0x0,
        }
    }
}

/// ICE/ICD Comm Channel Select
#[allow(non_camel_case_types)]
#[derive(Clone, Copy, Debug, PartialEq, Eq)]
pub enum ICESEL {
    /// Communicate on PGEC1/PGED1
    ICS_PGx1,

    /// Communicate on PGEC2/PGED2
    ICS_PGx2,
}

impl ICESEL {
    /// Value of the setting in its field of the configuration word.
    pub open spec fn value(self) -> u32 {
        match self {
            ICESEL::ICS_PGx1 => 0x3,
            ICESEL::ICS_PGx2 => 0x2,
        }
    }

    /// Value of the setting in its field of the configuration word.
    pub fn bits(self) -> (r: u32)
        ensures
            r == self.value(),
    {
        match self {
            ICESEL::ICS_PGx1 => 0x3,
            ICESEL::ICS_PGx2 => 0x2,
        }
    }
}

/// Trace Enable
#[allow(non_camel_case_types)]
#[derive(Clone, Copy, Debug, PartialEq, Eq)]
pub enum TRCEN {
    /// Trace features in the CPU are enabled
    ON,

    /// Trace features in the CPU are disabled
    OFF,
}

impl TRCEN {
    /// Value of the setting in its field of the configuration word.
    pub open spec fn value(self) -> u32 {
        match self {
            TRCEN::ON => 0x1,
            TRCEN::OFF => 0x0,
        }
    }

    /// Value of the setting in its field of the configuration word.
    pub fn bits(self) -> (r: u32)
        ensures
            r == self.value(),
    {
        match self {
            TRCEN::ON => 0x1,
            TRCEN::OFF => 0x0,
        }
    }
}

/// Boot ISA Selection
#[allow(non_camel_case_types)]
#[derive(Clone, Copy, Debug, PartialEq, Eq)]
pub enum BOOTISA {
    /// Boot code and Exception code is MIPS32
    MIPS32,

    /// Boot code and Exception code is microMIPS
    MICROMIPS,
}

impl BOOTISA {
    /// Value of the setting in its field of the configuration word.
    pub open spec fn value(self) -> u32 {
        match self {
            BOOTISA::MIPS32 => 0x1,
            BOOTISA::MICROMIPS => 0x0,
        }
    }

    /// Value of the setting in its field of the configuration word.
    pub fn bits(self) -> (r: u32)
        ensures
            r == self.value(),
    {
        match self {
            BOOTISA::MIPS32 => 0x1,
            BOOTISA::MICROMIPS => 0x0,
        }
    }
}

/// Dynamic Flash ECC Configuration
#[allow(non_camel_case_types)]
#[derive(Clone, Copy, Debug, PartialEq, Eq)]
pub enum FECCCON {
    /// Flash ECC is enabled (ECCCON bits are locked)
    ON,

    /// Dynamic Flash ECC is enabled (ECCCON bits are locked)
    DYNAMIC,

    /// ECC and Dynamic ECC are disabled (ECCCON bits are locked)
    OFF_LOCKED,

    /// ECC and Dynamic ECC are disabled (ECCCON bits are writable)
    OFF_UNLOCKED,
}

impl FECCCON {
    /// Value of the setting in its field of the configuration word.
    pub open spec fn value(self) -> u32 {
        match self {
            FECCCON::ON => 0x0,
            FECCCON::DYNAMIC => 0x1,
            FECCCON::OFF_LOCKED => 0x2,
            FECCCON::OFF_UNLOCKED => 0x3,
        }
    }

    /// Value of the setting in its field of the configuration word.
    pub fn bits(self) -> (r: u32)
        ensures
            r == self.value(),
    {
        match self {
            FECCCON::ON => 0x0,
            FECCCON::DYNAMIC => 0x1,
            FECCCON::OFF_LOCKED => 0x2,
            FECCCON::OFF_UNLOCKED => 0x3,
        }
    }
}

/// Flash Sleep Mode
#[allow(non_camel_case_types)]
#[derive(Clone, Copy, Debug, PartialEq, Eq)]
pub enum FSLEEP {
    /// Flash is powered down when the device is in Sleep mode
    OFF,

    /// Flash power down is controlled by the VREGS bit
    VREGS,
}

impl FSLEEP {
    /// Value of the setting in its field of the configuration word.
    pub open spec fn value(self) -> u32 {
        match self {
            FSLEEP::OFF => 0x1,
            FSLEEP::VREGS => 0x0,
        }
    }

    /// Value of the setting in its field of the configuration word.
    pub fn bits(self) -> (r: u32)
        ensures
            r == self.value(),
    {
        match self {
            FSLEEP::OFF => 0x1,
            FSLEEP::VREGS => 0x0,
        }
    }
}

/// Debug Mode CPU Access Permission
#[allow(non_camel_case_types)]
#[derive(Clone, Copy, Debug, PartialEq, Eq)]
pub enum DBGPER {
    /// Allow CPU access to Permission Group 2 permission regions
    ALLOW_PG2,

    /// Allow CPU access to Permission Group 1 permission regions
    ALLOW_PG1,

    /// Allow CPU access to Permission Group 0 permission regions
    ALLOW_PG0,

    /// PG0: Allow PG1: Allow PG2: Deny
    PG_1_0,

    /// PG0: Allow PG1: Deny PG2: Allow
    PG_2_0,

    /// PG0: Deny PG1: Allow PG2: Allow
    PG_2_1,

    /// Allow CPU access to all permission regions
    PG_ALL,

    /// Deny CPU access to all permission regions
    PG_NONE,
}

impl DBGPER {
    /// Value of the setting in its field of the configuration word.
    pub open spec fn value(self) -> u32 {
        match self {
            DBGPER::ALLOW_PG2 => 0x4,
            DBGPER::ALLOW_PG1 => 0x2,
            DBGPER::ALLOW_PG0 => 0x1,
            DBGPER::PG_1_0 => 0x3,
            DBGPER::PG_2_0 => 0x5,
            DBGPER::PG_2_1 => 0x6,
            DBGPER::PG_ALL => 0x7,
            DBGPER::PG_NONE => 0x0,
        }
    }

    /// Value of the setting in its field of the configuration word.
    pub fn bits(self) -> (r: u32)
        ensures
            r == self.value(),
    {
        match self {
            DBGPER::ALLOW_PG2 => 0x4,
            DBGPER::ALLOW_PG1 => 0x2,
            DBGPER::ALLOW_PG0 => 0x1,
            DBGPER::PG_1_0 => 0x3,
            DBGPER::PG_2_0 => 0x5,
            DBGPER::PG_2_1 => 0x6,
            DBGPER::PG_ALL => 0x7,
            DBGPER::PG_NONE => 0x0,
        }
    }
}

/// Soft Master Clear Enable bit
#[allow(non_camel_case_types)]
#[derive(Clone, Copy, Debug, PartialEq, Eq)]
pub enum SMCLR {
    /// MCLR pin generates a normal system Reset
    MCLR_NORM,

    /// MCLR pin generates an emulated POR Reset
    MCLR_POR,
}

impl SMCLR {
    /// Value of the setting in its field of the configuration word.
    pub open spec fn value(self) -> u32 {
        match self {
            SMCLR::MCLR_NORM => 0x1,
            SMCLR::MCLR_POR => 0x0,
        }
    }

    /// Value of the setting in its field of the configuration word.
    pub fn bits(self) -> (r: u32)
        ensures
            r == self.value(),
    {
        match self {
            SMCLR::MCLR_NORM => 0x1,
            SMCLR::MCLR_POR => 0x0,
        }
    }
}

/// Secondary Oscillator Gain Control bits
#[allow(non_camel_case_types)]
#[derive(Clone, Copy, Debug, PartialEq, Eq)]
pub enum SOSCGAIN {
    /// Gain level 3 (Highest)
    GAIN_LEVEL_3,

    /// Gain level 2
    GAIN_LEVEL_2,

    /// Gain level 1
    GAIN_LEVEL_1,

    /// Gain level 0 (Lowest)
    GAIN_LEVEL_0,
}

impl SOSCGAIN {
    /// Value of the setting in its field of the configuration word.
    pub open spec fn value(self) -> u32 {
        match self {
            SOSCGAIN::GAIN_LEVEL_3 => 0x3,
            SOSCGAIN::GAIN_LEVEL_2 => 0x2,
            SOSCGAIN::GAIN_LEVEL_1 => 0x1,
            SOSCGAIN::GAIN_LEVEL_0 => 0x0,
        }
    }

    /// Value of the setting in its field of the configuration word.
    pub fn bits(self) -> (r: u32)
        ensures
            r == self.value(),
    {
        match self {
            SOSCGAIN::GAIN_LEVEL_3 => 0x3,
            SOSCGAIN::GAIN_LEVEL_2 => 0x2,
            SOSCGAIN::GAIN_LEVEL_1 => 0x1,
            SOSCGAIN::GAIN_LEVEL_0 => 0x0,
        }
    }
}

/// Secondary Oscillator Boost Kick Start Enable bit
#[allow(non_camel_case_types)]
#[derive(Clone, Copy, Debug, PartialEq, Eq)]
pub enum SOSCBOOST {
    /// Boost the kick start of the oscillator
    ON,

    /// Normal start of the oscillator
    OFF,
}

impl SOSCBOOST {
    /// Value of the setting in its field of the configuration word.
    pub open spec fn value(self) -> u32 {
        match self {
            SOSCBOOST::ON => 0x1,
            SOSCBOOST::OFF => 0x0,
        }
    }

    /// Value of the setting in its field of the configuration word.
    pub fn bits(self) -> (r: u32)
        ensures
            r == self.value(),
    {
        match self {
            SOSCBOOST::ON => 0x1,
            SOSCBOOST::OFF => 0x0,
        }
    }
}

/// Primary Oscillator Gain Control bits
#[allow(non_camel_case_types)]
#[derive(Clone, Copy, Debug, PartialEq, Eq)]
pub enum POSCGAIN {
    /// Gain level 3 (Highest)
    GAIN_LEVEL_3,

    /// Gain level 2
    GAIN_LEVEL_2,

    /// Gain level 1
    GAIN_LEVEL_1,

    /// Gain level 0 (Lowest)
    GAIN_LEVEL_0,
}

impl POSCGAIN {
    /// Value of the setting in its field of the configuration word.
    pub open spec fn value(self) -> u32 {
        match self {
            POSCGAIN::GAIN_LEVEL_3 => 0x3,
            POSCGAIN::GAIN_LEVEL_2 => 0x2,
            POSCGAIN::GAIN_LEVEL_1 => 0x1,
            POSCGAIN::GAIN_LEVEL_0 => 0x0,
        }
    }

    /// Value of the setting in its field of the configuration word.
    pub fn bits(self) -> (r: u32)
        ensures
            r == self.value(),
    {
        match self {
            POSCGAIN::GAIN_LEVEL_3 => 0x3,
            POSCGAIN::GAIN_LEVEL_2 => 0x2,
            POSCGAIN::GAIN_LEVEL_1 => 0x1,
            POSCGAIN::GAIN_LEVEL_0 => 0x0,
        }
    }
}

/// Primary Oscillator Boost Kick Start Enable bit
#[allow(non_camel_case_types)]
#[derive(Clone, Copy, Debug, PartialEq, Eq)]
pub enum POSCBOOST {
    /// Boost the kick start of the oscillator
    ON,

    /// Normal start of the oscillator
    OFF,
}

impl POSCBOOST {
    /// Value of the setting in its field of the configuration word.
    pub open spec fn value(self) -> u32 {
        match self {
            POSCBOOST::ON => 0x1,
            POSCBOOST::OFF => 0x0,
        }
    }

    /// Value of the setting in its field of the configuration word.
    pub fn bits(self) -> (r: u32)
        ensures
            r == self.value(),
    {
        match self {
            POSCBOOST::ON => 0x1,
            POSCBOOST::OFF => 0x0,
        }
    }
}

/// EJTAG Boot
#[allow(non_camel_case_types)]
#[derive(Clone, Copy, Debug, PartialEq, Eq)]
pub enum EJTAGBEN {
    /// Normal EJTAG functionality
    NORMAL,

    /// Reduced EJTAG functionality
    REDUCED,
}

impl EJTAGBEN {
    /// Value of the setting in its field of the configuration word.
    pub open spec fn value(self) -> u32 {
        match self {
            EJTAGBEN::NORMAL => 0x1,
            EJTAGBEN::REDUCED => 0x0,
        }
    }

    /// Value of the setting in its field of the configuration word.
    pub fn bits(self) -> (r: u32)
        ensures
            r == self.value(),
    {
        match self {
            EJTAGBEN::NORMAL => 0x1,
            EJTAGBEN::REDUCED => 0x0,
        }
    }
}

/// Code Protect
#[allow(non_camel_case_types)]
#[derive(Clone, Copy, Debug, PartialEq, Eq)]
pub enum CP {
    /// Protection Enabled
    ON,

    /// Protection Disabled
    OFF,
}

impl CP {
    /// Value of the setting in its field of the configuration word.
    pub open spec fn value(self) -> u32 {
        match self {
            CP::ON => 0x0,
            CP::OFF => 0x1,
        }
    }

    /// Value of the setting in its field of the configuration word.
    pub fn bits(self) -> (r: u32)
        ensures
            r == self.value(),
    {
        match self {
            CP::ON => 0x0,
            CP::OFF => 0x1,
        }
    }
}

/// Configuration words, in the order in which they are stored
#[allow(non_snake_case)]
pub struct ConfigSector {
    DEVCFG3: u32,
    DEVCFG2: u32,
    DEVCFG1: u32,
    DEVCFG0: u32,
    DEVCP3: u32,
    DEVCP2: u32,
    DEVCP1: u32,
    DEVCP0: u32,
    DEVSIGN3: u32,
    DEVSIGN2: u32,
    DEVSIGN1: u32,
    DEVSIGN0: u32,
    SEQ3: u32,
    SEQ2: u32,
    SEQ1: u32,
    SEQ0: u32,
}

impl ConfigSector {
    /// The words in the order in which they are stored.
    pub open spec fn view(self) -> Seq<u32> {
        seq![self.spec_devcfg3(), self.spec_devcfg2(), self.spec_devcfg1(), self.spec_devcfg0(), self.spec_devcp3(), self.spec_devcp2(), self.spec_devcp1(), self.spec_devcp0(), self.spec_devsign3(), self.spec_devsign2(), self.spec_devsign1(), self.spec_devsign0(), self.spec_seq3(), self.spec_seq2(), self.spec_seq1(), self.spec_seq0()]
    }

    /// The word DEVCFG3.
    pub closed spec fn spec_devcfg3(self) -> u32 {
        self.DEVCFG3
    }

    /// The word DEVCFG2.
    pub closed spec fn spec_devcfg2(self) -> u32 {
        self.DEVCFG2
    }

    /// The word DEVCFG1.
    pub closed spec fn spec_devcfg1(self) -> u32 {
        self.DEVCFG1
    }

    /// The word DEVCFG0.
    pub closed spec fn spec_devcfg0(self) -> u32 {
        self.DEVCFG0
    }

    /// The word DEVCP3.
    pub closed spec fn spec_devcp3(self) -> u32 {
        self.DEVCP3
    }

    /// The word DEVCP2.
    pub closed spec fn spec_devcp2(self) -> u32 {
        self.DEVCP2
    }

    /// The word DEVCP1.
    pub closed spec fn spec_devcp1(self) -> u32 {
        self.DEVCP1
    }

    /// The word DEVCP0.
    pub closed spec fn spec_devcp0(self) -> u32 {
        self.DEVCP0
    }

    /// The word DEVSIGN3.
    pub closed spec fn spec_devsign3(self) -> u32 {
        self.DEVSIGN3
    }

    /// The word DEVSIGN2.
    pub closed spec fn spec_devsign2(self) -> u32 {
        self.DEVSIGN2
    }

    /// The word DEVSIGN1.
    pub closed spec fn spec_devsign1(self) -> u32 {
        self.DEVSIGN1
    }

    /// The word DEVSIGN0.
    pub closed spec fn spec_devsign0(self) -> u32 {
        self.DEVSIGN0
    }

    /// The word SEQ3.
    pub closed spec fn spec_seq3(self) -> u32 {
        self.SEQ3
    }

    /// The word SEQ2.
    pub closed spec fn spec_seq2(self) -> u32 {
        self.SEQ2
    }

    /// The word SEQ1.
    pub closed spec fn spec_seq1(self) -> u32 {
        self.SEQ1
    }

    /// The word SEQ0.
    pub closed spec fn spec_seq0(self) -> u32 {
        self.SEQ0
    }

    /// Create a builder
    pub fn default() -> (r: ConfigSectorBuilder)
        ensures
            r@ =~= seq![0xffffffffu32, 0xffffffffu32, 0xffffffffu32, 0xfffff7ffu32, 0xffffffffu32, 0xffffffffu32, 0xffffffffu32, 0xffffffffu32, 0xffffffffu32, 0xffffffffu32, 0xffffffffu32, 0x7fffffffu32, 0xffffffffu32, 0xffffffffu32, 0xffffffffu32, 0xffffffffu32],
    {
        ConfigSectorBuilder {
            DEVCFG3: 0xffffffff,
            DEVCFG2: 0xffffffff,
            DEVCFG1: 0xffffffff,
            DEVCFG0: 0xfffff7ff,
            DEVCP3: 0xffffffff,
            DEVCP2: 0xffffffff,
            DEVCP1: 0xffffffff,
            DEVCP0: 0xffffffff,
            DEVSIGN3: 0xffffffff,
            DEVSIGN2: 0xffffffff,
            DEVSIGN1: 0xffffffff,
            DEVSIGN0: 0x7fffffff,
            SEQ3: 0xffffffff,
            SEQ2: 0xffffffff,
            SEQ1: 0xffffffff,
            SEQ0: 0xffffffff,
        }
    }

    /// Convert into a array of 32 bit words consuming this ConfigSector
    pub fn into_array(self) -> (r: [u32; CONFIG_SECTOR_LENGTH])
        ensures
            r@ =~= self@,
    {
        [self.DEVCFG3, self.DEVCFG2, self.DEVCFG1, self.DEVCFG0, self.DEVCP3, self.DEVCP2, self.DEVCP1, self.DEVCP0, self.DEVSIGN3, self.DEVSIGN2, self.DEVSIGN1, self.DEVSIGN0, self.SEQ3, self.SEQ2, self.SEQ1, self.SEQ0]
    }
}

/// Configuration word sector builder
#[allow(non_snake_case)]
pub struct ConfigSectorBuilder {
    DEVCFG3: u32,
    DEVCFG2: u32,
    DEVCFG1: u32,
    DEVCFG0: u32,
    DEVCP3: u32,
    DEVCP2: u32,
    DEVCP1: u32,
    DEVCP0: u32,
    DEVSIGN3: u32,
    DEVSIGN2: u32,
    DEVSIGN1: u32,
    DEVSIGN0: u32,
    SEQ3: u32,
    SEQ2: u32,
    SEQ1: u32,
    SEQ0: u32,
}

impl ConfigSectorBuilder {
    /// The words in the order in which they are stored.
    pub open spec fn view(self) -> Seq<u32> {
        seq![self.spec_devcfg3(), self.spec_devcfg2(), self.spec_devcfg1(), self.spec_devcfg0(), self.spec_devcp3(), self.spec_devcp2(), self.spec_devcp1(), self.spec_devcp0(), self.spec_devsign3(), self.spec_devsign2(), self.spec_devsign1(), self.spec_devsign0(), self.spec_seq3(), self.spec_seq2(), self.spec_seq1(), self.spec_seq0()]
    }

    /// The word DEVCFG3.
    pub closed spec fn spec_devcfg3(self) -> u32 {
        self.DEVCFG3
    }

    /// The word DEVCFG2.
    pub closed spec fn spec_devcfg2(self) -> u32 {
        self.DEVCFG2
    }

    /// The word DEVCFG1.
    pub closed spec fn spec_devcfg1(self) -> u32 {
        self.DEVCFG1
    }

    /// The word DEVCFG0.
    pub closed spec fn spec_devcfg0(self) -> u32 {
        self.DEVCFG0
    }

    /// The word DEVCP3.
    pub closed spec fn spec_devcp3(self) -> u32 {
        self.DEVCP3
    }

    /// The word DEVCP2.
    pub closed spec fn spec_devcp2(self) -> u32 {
        self.DEVCP2
    }

    /// The word DEVCP1.
    pub closed spec fn spec_devcp1(self) -> u32 {
        self.DEVCP1
    }

    /// The word DEVCP0.
    pub closed spec fn spec_devcp0(self) -> u32 {
        self.DEVCP0
    }

    /// The word DEVSIGN3.
    pub closed spec fn spec_devsign3(self) -> u32 {
        self.DEVSIGN3
    }

    /// The word DEVSIGN2.
    pub closed spec fn spec_devsign2(self) -> u32 {
        self.DEVSIGN2
    }

    /// The word DEVSIGN1.
    pub closed spec fn spec_devsign1(self) -> u32 {
        self.DEVSIGN1
    }

    /// The word DEVSIGN0.
    pub closed spec fn spec_devsign0(self) -> u32 {
        self.DEVSIGN0
    }

    /// The word SEQ3.
    pub closed spec fn spec_seq3(self) -> u32 {
        self.SEQ3
    }

    /// The word SEQ2.
    pub closed spec fn spec_seq2(self) -> u32 {
        self.SEQ2
    }

    /// The word SEQ1.
    pub closed spec fn spec_seq1(self) -> u32 {
        self.SEQ1
    }

    /// The word SEQ0.
    pub closed spec fn spec_seq0(self) -> u32 {
        self.SEQ0
    }

    /// Set the `USERID` setting in DEVCFG3.
    #[allow(non_snake_case)]
    pub fn USERID(self, v: u16) -> (r: Self)
        ensures
            r@ =~= self@.update(0, spec_with_field(self@[0], 0x0000ffff, 0, v as u32)),
    {
        let mut s = self;
        s.DEVCFG3 = with_field(s.DEVCFG3, 0x0000ffff, 0, v as u32);
        s
    }

    /// Set the `FMIIEN` setting in DEVCFG3.
    #[allow(non_snake_case)]
    pub fn FMIIEN(self, v: FMIIEN) -> (r: Self)
        ensures
            r@ =~= self@.update(0, spec_with_field(self@[0], 0x01000000, 24, v.value())),
    {
        let mut s = self;
        s.DEVCFG3 = with_field(s.DEVCFG3, 0x01000000, 24, v.bits());
        s
    }

    /// Set the `FETHIO` setting in DEVCFG3.
    #[allow(non_snake_case)]
    pub fn FETHIO(self, v: FETHIO) -> (r: Self)
        ensures
            r@ =~= self@.update(0, spec_with_field(self@[0], 0x02000000, 25, v.value())),
    {
        let mut s = self;
        s.DEVCFG3 = with_field(s.DEVCFG3, 0x02000000, 25, v.bits());
        s
    }

    /// Set the `PGL1WAY` setting in DEVCFG3.
    #[allow(non_snake_case)]
    pub fn PGL1WAY(self, v: PGL1WAY) -> (r: Self)
        ensures
            r@ =~= self@.update(0, spec_with_field(self@[0], 0x08000000, 27, v.value())),
    {
        let mut s = self;
        s.DEVCFG3 = with_field(s.DEVCFG3, 0x08000000, 27, v.bits());
        s
    }

    /// Set the `PMDL1WAY` setting in DEVCFG3.
    #[allow(non_snake_case)]
    pub fn PMDL1WAY(self, v: PMDL1WAY) -> (r: Self)
        ensures
            r@ =~= self@.update(0, spec_with_field(self@[0], 0x10000000, 28, v.value())),
    {
        let mut s = self;
        s.DEVCFG3 = with_field(s.DEVCFG3, 0x10000000, 28, v.bits());
        s
    }

    /// Set the `IOL1WAY` setting in DEVCFG3.
    #[allow(non_snake_case)]
    pub fn IOL1WAY(self, v: IOL1WAY) -> (r: Self)
        ensures
            r@ =~= self@.update(0, spec_with_field(self@[0], 0x20000000, 29, v.value())),
    {
        let mut s = self;
        s.DEVCFG3 = with_field(s.DEVCFG3, 0x20000000, 29, v.bits());
        s
    }

    /// Set the `FUSBIDIO` setting in DEVCFG3.
    #[allow(non_snake_case)]
    pub fn FUSBIDIO(self, v: FUSBIDIO) -> (r: Self)
        ensures
            r@ =~= self@.update(0, spec_with_field(self@[0], 0x40000000, 30, v.value())),
    {
        let mut s = self;
        s.DEVCFG3 = with_field(s.DEVCFG3, 0x40000000, 30, v.bits());
        s
    }

    /// Set the `FPLLIDIV` setting in DEVCFG2.
    #[allow(non_snake_case)]
    pub fn FPLLIDIV(self, v: FPLLIDIV) -> (r: Self)
        ensures
            r@ =~= self@.update(1, spec_with_field(self@[1], 0x00000007, 0, v.value())),
    {
        let mut s = self;
        s.DEVCFG2 = with_field(s.DEVCFG2, 0x00000007, 0, v.bits());
        s
    }

    /// Set the `FPLLRNG` setting in DEVCFG2.
    #[allow(non_snake_case)]
    pub fn FPLLRNG(self, v: FPLLRNG) -> (r: Self)
        ensures
            r@ =~= self@.update(1, spec_with_field(self@[1], 0x00000070, 4, v.value())),
    {
        let mut s = self;
        s.DEVCFG2 = with_field(s.DEVCFG2, 0x00000070, 4, v.bits());
        s
    }

    /// Set the `FPLLICLK` setting in DEVCFG2.
    #[allow(non_snake_case)]
    pub fn FPLLICLK(self, v: FPLLICLK) -> (r: Self)
        ensures
            r@ =~= self@.update(1, spec_with_field(self@[1], 0x00000080, 7, v.value())),
    {
        let mut s = self;
        s.DEVCFG2 = with_field(s.DEVCFG2, 0x00000080, 7, v.bits());
        s
    }

    /// Set the `FPLLMULT` setting in DEVCFG2.
    #[allow(non_snake_case)]
    pub fn FPLLMULT(self, v: FPLLMULT) -> (r: Self)
        ensures
            r@ =~= self@.update(1, spec_with_field(self@[1], 0x00007f00, 8, v.value())),
    {
        let mut s = self;
        s.DEVCFG2 = with_field(s.DEVCFG2, 0x00007f00, 8, v.bits());
        s
    }

    /// Set the `FPLLODIV` setting in DEVCFG2.
    #[allow(non_snake_case)]
    pub fn FPLLODIV(self, v: FPLLODIV) -> (r: Self)
        ensures
            r@ =~= self@.update(1, spec_with_field(self@[1], 0x00070000, 16, v.value())),
    {
        let mut s = self;
        s.DEVCFG2 = with_field(s.DEVCFG2, 0x00070000, 16, v.bits());
        s
    }

    /// Set the `UPLLFSEL` setting in DEVCFG2.
    #[allow(non_snake_case)]
    pub fn UPLLFSEL(self, v: UPLLFSEL) -> (r: Self)
        ensures
            r@ =~= self@.update(1, spec_with_field(self@[1], 0x40000000, 30, v.value())),
    {
        let mut s = self;
        s.DEVCFG2 = with_field(s.DEVCFG2, 0x40000000, 30, v.bits());
        s
    }

    /// Set the `FNOSC` setting in DEVCFG1.
    #[allow(non_snake_case)]
    pub fn FNOSC(self, v: FNOSC) -> (r: Self)
        ensures
            r@ =~= self@.update(2, spec_with_field(self@[2], 0x00000007, 0, v.value())),
    {
        let mut s = self;
        s.DEVCFG1 = with_field(s.DEVCFG1, 0x00000007, 0, v.bits());
        s
    }

    /// Set the `DMTINTV` setting in DEVCFG1.
    #[allow(non_snake_case)]
    pub fn DMTINTV(self, v: DMTINTV) -> (r: Self)
        ensures
            r@ =~= self@.update(2, spec_with_field(self@[2], 0x00000038, 3, v.value())),
    {
        let mut s = self;
        s.DEVCFG1 = with_field(s.DEVCFG1, 0x00000038, 3, v.bits());
        s
    }

    /// Set the `FSOSCEN` setting in DEVCFG1.
    #[allow(non_snake_case)]
    pub fn FSOSCEN(self, v: FSOSCEN) -> (r: Self)
        ensures
            r@ =~= self@.update(2, spec_with_field(self@[2], 0x00000040, 6, v.value())),
    {
        let mut s = self;
        s.DEVCFG1 = with_field(s.DEVCFG1, 0x00000040, 6, v.bits());
        s
    }

    /// Set the `IESO` setting in DEVCFG1.
    #[allow(non_snake_case)]
    pub fn IESO(self, v: IESO) -> (r: Self)
        ensures
            r@ =~= self@.update(2, spec_with_field(self@[2], 0x00000080, 7, v.value())),
    {
        let mut s = self;
        s.DEVCFG1 = with_field(s.DEVCFG1, 0x00000080, 7, v.bits());
        s
    }

    /// Set the `POSCMOD` setting in DEVCFG1.
    #[allow(non_snake_case)]
    pub fn POSCMOD(self, v: POSCMOD) -> (r: Self)
        ensures
            r@ =~= self@.update(2, spec_with_field(self@[2], 0x00000300, 8, v.value())),
    {
        let mut s = self;
        s.DEVCFG1 = with_field(s.DEVCFG1, 0x00000300, 8, v.bits());
        s
    }

    /// Set the `OSCIOFNC` setting in DEVCFG1.
    #[allow(non_snake_case)]
    pub fn OSCIOFNC(self, v: OSCIOFNC) -> (r: Self)
        ensures
            r@ =~= self@.update(2, spec_with_field(self@[2], 0x00000400, 10, v.value())),
    {
        let mut s = self;
        s.DEVCFG1 = with_field(s.DEVCFG1, 0x00000400, 10, v.bits());
        s
    }

    /// Set the `FCKSM` setting in DEVCFG1.
    #[allow(non_snake_case)]
    pub fn FCKSM(self, v: FCKSM) -> (r: Self)
        ensures
            r@ =~= self@.update(2, spec_with_field(self@[2], 0x0000c000, 14, v.value())),
    {
        let mut s = self;
        s.DEVCFG1 = with_field(s.DEVCFG1, 0x0000c000, 14, v.bits());
        s
    }

    /// Set the `WDTPS` setting in DEVCFG1.
    #[allow(non_snake_case)]
    pub fn WDTPS(self, v: WDTPS) -> (r: Self)
        ensures
            r@ =~= self@.update(2, spec_with_field(self@[2], 0x001f0000, 16, v.value())),
    {
        let mut s = self;
        s.DEVCFG1 = with_field(s.DEVCFG1, 0x001f0000, 16, v.bits());
        s
    }

    /// Set the `WDTSPGM` setting in DEVCFG1.
    #[allow(non_snake_case)]
    pub fn WDTSPGM(self, v: WDTSPGM) -> (r: Self)
        ensures
            r@ =~= self@.update(2, spec_with_field(self@[2], 0x00200000, 21, v.value())),
    {
        let mut s = self;
        s.DEVCFG1 = with_field(s.DEVCFG1, 0x00200000, 21, v.bits());
        s
    }

    /// Set the `WINDIS` setting in DEVCFG1.
    #[allow(non_snake_case)]
    pub fn WINDIS(self, v: WINDIS) -> (r: Self)
        ensures
            r@ =~= self@.update(2, spec_with_field(self@[2], 0x00400000, 22, v.value())),
    {
        let mut s = self;
        s.DEVCFG1 = with_field(s.DEVCFG1, 0x00400000, 22, v.bits());
        s
    }

    /// Set the `FWDTEN` setting in DEVCFG1.
    #[allow(non_snake_case)]
    pub fn FWDTEN(self, v: FWDTEN) -> (r: Self)
        ensures
            r@ =~= self@.update(2, spec_with_field(self@[2], 0x00800000, 23, v.value())),
    {
        let mut s = self;
        s.DEVCFG1 = with_field(s.DEVCFG1, 0x00800000, 23, v.bits());
        s
    }

    /// Set the `FWDTWINSZ` setting in DEVCFG1.
    #[allow(non_snake_case)]
    pub fn FWDTWINSZ(self, v: FWDTWINSZ) -> (r: Self)
        ensures
            r@ =~= self@.update(2, spec_with_field(self@[2], 0x03000000, 24, v.value())),
    {
        let mut s = self;
        s.DEVCFG1 = with_field(s.DEVCFG1, 0x03000000, 24, v.bits());
        s
    }

    /// Set the `DMTCNT` setting in DEVCFG1.
    #[allow(non_snake_case)]
    pub fn DMTCNT(self, v: DMTCNT) -> (r: Self)
        ensures
            r@ =~= self@.update(2, spec_with_field(self@[2], 0x7c000000, 26, v.value())),
    {
        let mut s = self;
        s.DEVCFG1 = with_field(s.DEVCFG1, 0x7c000000, 26, v.bits());
        s
    }

    /// Set the `FDMTEN` setting in DEVCFG1.
    #[allow(non_snake_case)]
    pub fn FDMTEN(self, v: FDMTEN) -> (r: Self)
        ensures
            r@ =~= self@.update(2, spec_with_field(self@[2], 0x80000000, 31, v.value())),
    {
        let mut s = self;
        s.DEVCFG1 = with_field(s.DEVCFG1, 0x80000000, 31, v.bits());
        s
    }

    /// Set the `JTAGEN` setting in DEVCFG0.
    #[allow(non_snake_case)]
    pub fn JTAGEN(self, v: JTAGEN) -> (r: Self)
        ensures
            r@ =~= self@.update(3, spec_with_field(self@[3], 0x00000004, 2, v.value())),
    {
        let mut s = self;
        s.DEVCFG0 = with_field(s.DEVCFG0, 0x00000004, 2, v.bits());
        s
    }

    /// Set the `ICESEL` setting in DEVCFG0.
    #[allow(non_snake_case)]
    pub fn ICESEL(self, v: ICESEL) -> (r: Self)
        ensures
            r@ =~= self@.update(3, spec_with_field(self@[3], 0x00000018, 3, v.value())),
    {
        let mut s = self;
        s.DEVCFG0 = with_field(s.DEVCFG0, 0x00000018, 3, v.bits());
        s
    }

    /// Set the `TRCEN` setting in DEVCFG0.
    #[allow(non_snake_case)]
    pub fn TRCEN(self, v: TRCEN) -> (r: Self)
        ensures
            r@ =~= self@.update(3, spec_with_field(self@[3], 0x00000020, 5, v.value())),
    {
        let mut s = self;
        s.DEVCFG0 = with_field(s.DEVCFG0, 0x00000020, 5, v.bits());
        s
    }

    /// Set the `BOOTISA` setting in DEVCFG0.
    #[allow(non_snake_case)]
    pub fn BOOTISA(self, v: BOOTISA) -> (r: Self)
        ensures
            r@ =~= self@.update(3, spec_with_field(self@[3], 0x00000040, 6, v.value())),
    {
        let mut s = self;
        s.DEVCFG0 = with_field(s.DEVCFG0, 0x00000040, 6, v.bits());
        s
    }

    /// Set the `FECCCON` setting in DEVCFG0.
    #[allow(non_snake_case)]
    pub fn FECCCON(self, v: FECCCON) -> (r: Self)
        ensures
            r@ =~= self@.update(3, spec_with_field(self@[3], 0x00000300, 8, v.value())),
    {
        let mut s = self;
        s.DEVCFG0 = with_field(s.DEVCFG0, 0x00000300, 8, v.bits());
        s
    }

    /// Set the `FSLEEP` setting in DEVCFG0.
    #[allow(non_snake_case)]
    pub fn FSLEEP(self, v: FSLEEP) -> (r: Self)
        ensures
            r@ =~= self@.update(3, spec_with_field(self@[3], 0x00000400, 10, v.value())),
    {
        let mut s = self;
        s.DEVCFG0 = with_field(s.DEVCFG0, 0x00000400, 10, v.bits());
        s
    }

    /// Set the `DBGPER` setting in DEVCFG0.
    #[allow(non_snake_case)]
    pub fn DBGPER(self, v: DBGPER) -> (r: Self)
        ensures
            r@ =~= self@.update(3, spec_with_field(self@[3], 0x00007000, 12, v.value())),
    {
        let mut s = self;
        s.DEVCFG0 = with_field(s.DEVCFG0, 0x00007000, 12, v.bits());
        s
    }

    /// Set the `SMCLR` setting in DEVCFG0.
    #[allow(non_snake_case)]
    pub fn SMCLR(self, v: SMCLR) -> (r: Self)
        ensures
            r@ =~= self@.update(3, spec_with_field(self@[3], 0x00008000, 15, v.value())),
    {
        let mut s = self;
        s.DEVCFG0 = with_field(s.DEVCFG0, 0x00008000, 15, v.bits());
        s
    }

    /// Set the `SOSCGAIN` setting in DEVCFG0.
    #[allow(non_snake_case)]
    pub fn SOSCGAIN(self, v: SOSCGAIN) -> (r: Self)
        ensures
            r@ =~= self@.update(3, spec_with_field(self@[3], 0x00030000, 16, v.value())),
    {
        let mut s = self;
        s.DEVCFG0 = with_field(s.DEVCFG0, 0x00030000, 16, v.bits());
        s
    }

    /// Set the `SOSCBOOST` setting in DEVCFG0.
    #[allow(non_snake_case)]
    pub fn SOSCBOOST(self, v: SOSCBOOST) -> (r: Self)
        ensures
            r@ =~= self@.update(3, spec_with_field(self@[3], 0x00040000, 18, v.value())),
    {
        let mut s = self;
        s.DEVCFG0 = with_field(s.DEVCFG0, 0x00040000, 18, v.bits());
        s
    }

    /// Set the `POSCGAIN` setting in DEVCFG0.
    #[allow(non_snake_case)]
    pub fn POSCGAIN(self, v: POSCGAIN) -> (r: Self)
        ensures
            r@ =~= self@.update(3, spec_with_field(self@[3], 0x00180000, 19, v.value())),
    {
        let mut s = self;
        s.DEVCFG0 = with_field(s.DEVCFG0, 0x00180000, 19, v.bits());
        s
    }

    /// Set the `POSCBOOST` setting in DEVCFG0.
    #[allow(non_snake_case)]
    pub fn POSCBOOST(self, v: POSCBOOST) -> (r: Self)
        ensures
            r@ =~= self@.update(3, spec_with_field(self@[3], 0x00200000, 21, v.value())),
    {
        let mut s = self;
        s.DEVCFG0 = with_field(s.DEVCFG0, 0x00200000, 21, v.bits());
        s
    }

    /// Set the `EJTAGBEN` setting in DEVCFG0.
    #[allow(non_snake_case)]
    pub fn EJTAGBEN(self, v: EJTAGBEN) -> (r: Self)
        ensures
            r@ =~= self@.update(3, spec_with_field(self@[3], 0x40000000, 30, v.value())),
    {
        let mut s = self;
        s.DEVCFG0 = with_field(s.DEVCFG0, 0x40000000, 30, v.bits());
        s
    }

    /// Set the `CP` setting in DEVCP0.
    #[allow(non_snake_case)]
    pub fn CP(self, v: CP) -> (r: Self)
        ensures
            r@ =~= self@.update(7, spec_with_field(self@[7], 0x10000000, 28, v.value())),
    {
        let mut s = self;
        s.DEVCP0 = with_field(s.DEVCP0, 0x10000000, 28, v.bits());
        s
    }

    /// Set the `TSEQ` setting in SEQ3.
    #[allow(non_snake_case)]
    pub fn TSEQ(self, v: u16) -> (r: Self)
        ensures
            r@ =~= self@.update(12, spec_with_field(self@[12], 0x0000ffff, 0, v as u32)),
    {
        let mut s = self;
        s.SEQ3 = with_field(s.SEQ3, 0x0000ffff, 0, v as u32);
        s
    }

    /// Set the `CSEQ` setting in SEQ3.
    #[allow(non_snake_case)]
    pub fn CSEQ(self, v: u16) -> (r: Self)
        ensures
            r@ =~= self@.update(12, spec_with_field(self@[12], 0xffff0000, 16, v as u32)),
    {
        let mut s = self;
        s.SEQ3 = with_field(s.SEQ3, 0xffff0000, 16, v as u32);
        s
    }

    /// Finish the configuration.
    pub fn build(self) -> (r: ConfigSector)
        ensures
            r@ =~= self@,
    {
        ConfigSector {
            DEVCFG3: self.DEVCFG3,
            DEVCFG2: self.DEVCFG2,
            DEVCFG1: self.DEVCFG1,
            DEVCFG0: self.DEVCFG0,
            DEVCP3: self.DEVCP3,
            DEVCP2: self.DEVCP2,
            DEVCP1: self.DEVCP1,
            DEVCP0: self.DEVCP0,
            DEVSIGN3: self.DEVSIGN3,
            DEVSIGN2: self.DEVSIGN2,
            DEVSIGN1: self.DEVSIGN1,
            DEVSIGN0: self.DEVSIGN0,
            SEQ3: self.SEQ3,
            SEQ2: self.SEQ2,
            SEQ1: self.SEQ1,
            SEQ0: self.SEQ0,
        }
    }
}

} // verus!
