use st7735_lcd::Instruction;

#[test]
fn opcodes_match_the_datasheet() {
    let table = [
        (Instruction::NOP, 0x00),
        (Instruction::SWRESET, 0x01),
        (Instruction::RDDID, 0x04),
        (Instruction::RDDST, 0x09),
        (Instruction::SLPIN, 0x10),
        (Instruction::SLPOUT, 0x11),
        (Instruction::PTLON, 0x12),
        (Instruction::NORON, 0x13),
        (Instruction::INVOFF, 0x20),
        (Instruction::INVON, 0x21),
        (Instruction::DISPOFF, 0x28),
        (Instruction::DISPON, 0x29),
        (Instruction::CASET, 0x2A),
        (Instruction::RASET, 0x2B),
        (Instruction::RAMWR, 0x2C),
        (Instruction::RAMRD, 0x2E),
        (Instruction::PTLAR, 0x30),
        (Instruction::COLMOD, 0x3A),
        (Instruction::MADCTL, 0x36),
        (Instruction::FRMCTR1, 0xB1),
        (Instruction::FRMCTR2, 0xB2),
        (Instruction::FRMCTR3, 0xB3),
        (Instruction::INVCTR, 0xB4),
        (Instruction::DISSET5, 0xB6),
        (Instruction::PWCTR1, 0xC0),
        (Instruction::PWCTR2, 0xC1),
        (Instruction::PWCTR3, 0xC2),
        (Instruction::PWCTR4, 0xC3),
        (Instruction::PWCTR5, 0xC4),
        (Instruction::VMCTR1, 0xC5),
        (Instruction::RDID1, 0xDA),
        (Instruction::RDID2, 0xDB),
        (Instruction::RDID3, 0xDC),
        (Instruction::RDID4, 0xDD),
        (Instruction::PWCTR6, 0xFC),
        (Instruction::GMCTRP1, 0xE0),
        (Instruction::GMCTRN1, 0xE1),
    ];
    for (instruction, code) in table {
        assert_eq!(instruction.to_u8(), code);
    }
}

#[test]
fn opcodes_are_distinct() {
    let all = [
        Instruction::NOP,
        Instruction::SWRESET,
        Instruction::RDDID,
        Instruction::RDDST,
        Instruction::SLPIN,
        Instruction::SLPOUT,
        Instruction::PTLON,
        Instruction::NORON,
        Instruction::INVOFF,
        Instruction::INVON,
        Instruction::DISPOFF,
        Instruction::DISPON,
        Instruction::CASET,
        Instruction::RASET,
        Instruction::RAMWR,
        Instruction::RAMRD,
        Instruction::PTLAR,
        Instruction::COLMOD,
        Instruction::MADCTL,
        Instruction::FRMCTR1,
        Instruction::FRMCTR2,
        Instruction::FRMCTR3,
        Instruction::INVCTR,
        Instruction::DISSET5,
        Instruction::PWCTR1,
        Instruction::PWCTR2,
        Instruction::PWCTR3,
        Instruction::PWCTR4,
        Instruction::PWCTR5,
        Instruction::VMCTR1,
        Instruction::RDID1,
        Instruction::RDID2,
        Instruction::RDID3,
        Instruction::RDID4,
        Instruction::PWCTR6,
        Instruction::GMCTRP1,
        Instruction::GMCTRN1,
    ];
    for (i, a) in all.iter().enumerate() {
        for b in all.iter().skip(i + 1) {
            assert_ne!(a.to_u8(), b.to_u8());
        }
    }
}
