use asm6502::assemble::{add_padding, parse_file, to_bytes};
use asm6502::error::AssemblerError;
use asm6502::instruction::{Address, Instruction, Operand};
use asm6502::instructions::AddressMode;
use asm6502::process::proccess_instructions;

fn source(lines: &[&str]) -> Vec<String> {
    lines.iter().map(|l| l.to_string()).collect()
}

#[test]
fn test_size_matches_encoded_length() {
    let cases = vec![
        Instruction {
            opcode: "LDA".to_string(),
            operand: Some(Operand::Address(Address {
                address: 0x44,
                address_mode: AddressMode::ZeroPage,
            })),
        },
        Instruction {
            opcode: "LDA".to_string(),
            operand: Some(Operand::Address(Address {
                address: 0x4400,
                address_mode: AddressMode::Absolute,
            })),
        },
        Instruction {
            opcode: "LDA".to_string(),
            operand: Some(Operand::Address(Address {
                address: 0x05,
                address_mode: AddressMode::Immediate,
            })),
        },
        Instruction {
            opcode: "BRK".to_string(),
            operand: None,
        },
        Instruction {
            opcode: "LSR".to_string(),
            operand: Some(Operand::Address(Address {
                address: 0,
                address_mode: AddressMode::Accumulator,
            })),
        },
    ];
    for instr in cases {
        let bytes = instr.to_bytes().unwrap();
        assert_eq!(bytes.len(), instr.size() as usize);
    }
}

#[test]
fn test_exact_encodings() {
    let lda_zp = Instruction {
        opcode: "LDA".to_string(),
        operand: Some(Operand::Address(Address {
            address: 0x44,
            address_mode: AddressMode::ZeroPage,
        })),
    };
    assert_eq!(lda_zp.to_bytes().unwrap(), vec![0xA5, 0x44]);

    let lda_abs = Instruction {
        opcode: "LDA".to_string(),
        operand: Some(Operand::Address(Address {
            address: 0xC123,
            address_mode: AddressMode::Absolute,
        })),
    };
    assert_eq!(lda_abs.to_bytes().unwrap(), vec![0xAD, 0x23, 0xC1]);

    let lsr_acc = Instruction {
        opcode: "LSR".to_string(),
        operand: Some(Operand::Address(Address {
            address: 0,
            address_mode: AddressMode::Accumulator,
        })),
    };
    assert_eq!(lsr_acc.to_bytes().unwrap(), vec![0x4A]);
}

#[test]
fn test_jsr_is_always_encoded_absolute() {
    let jsr = Instruction {
        opcode: "JSR".to_string(),
        operand: Some(Operand::Address(Address {
            address: 0x1234,
            address_mode: AddressMode::Absolute,
        })),
    };
    assert_eq!(jsr.to_bytes().unwrap(), vec![0x20, 0x34, 0x12]);
}

#[test]
fn test_zero_page_value_out_of_range() {
    let instr = Instruction {
        opcode: "LDA".to_string(),
        operand: Some(Operand::Address(Address {
            address: 0x100,
            address_mode: AddressMode::ZeroPage,
        })),
    };
    assert_eq!(
        instr.to_bytes(),
        Err(AssemblerError::OperandOutOfRange(
            "Address Mode - ZeroPage, Address: 256".to_string()
        ))
    );
}

#[test]
fn test_absolute_value_out_of_range() {
    let instr = Instruction {
        opcode: "LDA".to_string(),
        operand: Some(Operand::Address(Address {
            address: 0x10000,
            address_mode: AddressMode::Absolute,
        })),
    };
    assert_eq!(
        instr.to_bytes(),
        Err(AssemblerError::OperandOutOfRange(
            "Address Mode - Absolute, Address: 65536".to_string()
        ))
    );
}

#[test]
fn test_case_sensitive_opcode_table() {
    // Validation accepts any letter case, but the opcode table is matched
    // case-sensitively, so a lower-case mnemonic fails at encoding.
    let instr = Instruction {
        opcode: "lda".to_string(),
        operand: Some(Operand::Address(Address {
            address: 0x05,
            address_mode: AddressMode::Immediate,
        })),
    };
    assert_eq!(
        instr.to_bytes(),
        Err(AssemblerError::OpCodeConversionError("lda".to_string()))
    );
}

#[test]
fn test_forward_and_backward_references_resolve_alike() {
    let lines = parse_file(source(&[
        ".ORG $8000",
        "JMP loop",
        "loop:",
        "JMP loop",
        "BRK",
    ]))
    .unwrap();
    let (instrs, start) = proccess_instructions(lines).unwrap();
    assert_eq!(start, 0x8000);
    let expected = Some(Operand::Address(Address {
        address: 0x8003,
        address_mode: AddressMode::Absolute,
    }));
    assert_eq!(instrs[0].operand, expected);
    assert_eq!(instrs[1].operand, expected);
}

#[test]
fn test_undefined_label_is_invalid_label_error() {
    let lines = parse_file(source(&["JMP missing", "BRK"])).unwrap();
    assert_eq!(
        proccess_instructions(lines),
        Err(AssemblerError::InvalidLabel {
            msg: "Did not find missing".to_string(),
            line: 1
        })
    );
}

#[test]
fn test_duplicate_label_definitions_last_wins() {
    let lines = parse_file(source(&["again:", "LDA #$01", "again:", "JMP again"])).unwrap();
    let (instrs, _) = proccess_instructions(lines).unwrap();
    assert_eq!(
        instrs[1].operand,
        Some(Operand::Address(Address {
            address: 0x0002,
            address_mode: AddressMode::Absolute,
        }))
    );
}

#[test]
fn test_branch_to_label_fails_at_encoding() {
    // A branch written with a label passes validation and resolves to an
    // absolute address, but the opcode table has no absolute entry for
    // branches, so encoding fails.
    let lines = parse_file(source(&["loop:", "BNE loop"])).unwrap();
    let (instrs, _) = proccess_instructions(lines).unwrap();
    assert_eq!(
        to_bytes(instrs),
        Err(AssemblerError::OpCodeConversionError("BNE".to_string()))
    );
}

#[test]
fn test_origin_defaults_to_zero_and_last_org_wins() {
    let lines = parse_file(source(&["BRK"])).unwrap();
    let (_, start) = proccess_instructions(lines).unwrap();
    assert_eq!(start, 0);

    let lines = parse_file(source(&[".ORG $1000", ".ORG $2000", "BRK"])).unwrap();
    let (_, start) = proccess_instructions(lines).unwrap();
    assert_eq!(start, 0x2000);
}

#[test]
fn test_rom_image_is_4096_bytes_with_vectors_last() {
    let image = add_padding(vec![0xA9, 0x05], 0x8000).unwrap();
    assert_eq!(image.len(), 4096);
    assert_eq!(image[0], 0xA9);
    assert_eq!(image[1], 0x05);
    assert!(image[2..4090].iter().all(|&b| b == 0));
    assert_eq!(&image[4090..], &[0x00, 0x80, 0x00, 0x00, 0x00, 0x00]);
}

#[test]
fn test_rom_image_capacity_edge() {
    assert_eq!(add_padding(vec![0; 4090], 0).unwrap().len(), 4096);
    assert_eq!(
        add_padding(vec![0; 4091], 0),
        Err(AssemblerError::ProgramTooLarge)
    );
}

#[test]
fn test_end_to_end_rom_image() {
    let lines = parse_file(source(&[".ORG $8000", "LDA #$05", "STA $00", "BRK"])).unwrap();
    let (instrs, start) = proccess_instructions(lines).unwrap();
    let bytes = to_bytes(instrs).unwrap();
    assert_eq!(bytes, vec![0xA9, 0x05, 0x85, 0x00, 0x00]);
    let image = add_padding(bytes, start as u16).unwrap();
    assert_eq!(image.len(), 4096);
    assert_eq!(&image[..5], &[0xA9, 0x05, 0x85, 0x00, 0x00]);
    assert!(image[5..4090].iter().all(|&b| b == 0));
    assert_eq!(&image[4090..], &[0x00, 0x80, 0x00, 0x00, 0x00, 0x00]);
}

#[test]
fn test_parse_file_reports_first_failing_line() {
    assert_eq!(
        parse_file(source(&["LDA #$01", "======", "BRK"])),
        Err(AssemblerError::ParseError {
            msg: "Unexpected token".to_string(),
            line: 2
        })
    );
}

#[test]
fn test_parse_file_empty_input() {
    let lines = parse_file(Vec::new()).unwrap();
    assert!(lines.is_empty());
    let (instrs, start) = proccess_instructions(lines).unwrap();
    assert!(instrs.is_empty());
    assert_eq!(start, 0);
}

#[test]
fn test_program_too_large_through_pipeline() {
    // 1364 three-byte instructions make 4092 bytes, past the 4090-byte
    // program region.
    let mut src = Vec::new();
    for _ in 0..1364 {
        src.push("LDA $1234".to_string());
    }
    let lines = parse_file(src).unwrap();
    let (instrs, start) = proccess_instructions(lines).unwrap();
    let bytes = to_bytes(instrs).unwrap();
    assert_eq!(bytes.len(), 4092);
    assert_eq!(add_padding(bytes, start as u16), Err(AssemblerError::ProgramTooLarge));
}
