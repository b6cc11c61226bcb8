use pic32_hal::config::pic32mx2xx;
use pic32_hal::config::pic32mx2xx::{ConfigSector, FNOSC, FPBDIV, FPLLIDIV, FPLLMUL, FWDTEN, JTAGEN};
use pic32_hal::config::pic32mzef;
use pic32_hal::mcu::{virt_to_phys, PhysicalAddress};

#[test]
fn mx2xx_default_words() {
    let words = pic32mx2xx::ConfigSector::default().build().into_array();
    assert_eq!(words, [0xffffffff, 0xffffffff, 0xffffffff, 0x7fffffff]);
}

#[test]
fn mx2xx_builder_sets_fields() {
    let words = ConfigSector::default()
        .USERID(0x1234)
        .FPLLIDIV(FPLLIDIV::DIV_2)
        .FPLLMUL(FPLLMUL::MUL_20)
        .FNOSC(FNOSC::FRCPLL)
        .FWDTEN(FWDTEN::OFF)
        .FPBDIV(FPBDIV::DIV_1)
        .JTAGEN(JTAGEN::OFF)
        .build()
        .into_array();
    assert_eq!(words, [0xffff1234, 0xffffffd9, 0xff7fcff9, 0x7ffffffb]);
}

#[test]
fn later_setting_of_a_field_wins() {
    let words = ConfigSector::default().FNOSC(FNOSC::FRC).FNOSC(FNOSC::FRCPLL).build().into_array();
    assert_eq!(words[2], 0xfffffff9);
}

#[test]
fn mzef_has_sixteen_words() {
    let words = pic32mzef::ConfigSector::default().TSEQ(0xabcd).build().into_array();
    assert_eq!(words.len(), pic32mzef::CONFIG_SECTOR_LENGTH);
    assert_eq!(words[3], 0xfffff7ff);
    assert_eq!(words[11], 0x7fffffff);
    assert_eq!(words[12], 0xffffabcd);
}

#[test]
fn enum_bits_match_field_values() {
    assert_eq!(pic32mx2xx::FPLLMUL::MUL_24.bits(), 7);
    assert_eq!(pic32mx2xx::FNOSC::FRCPLL.bits(), 1);
}

#[test]
fn virtual_to_physical() {
    assert_eq!(virt_to_phys(0x8000_1000).address(), 0x0000_1000);
    assert_eq!(virt_to_phys(0xa000_0200).address(), 0x0000_0200);
    assert_eq!(virt_to_phys(0x0000_1000).address(), 0x4000_1000);
    assert_eq!(PhysicalAddress::from_usize(42).address(), 42);
}
