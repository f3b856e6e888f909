use asm6502::directive::Directive;
use asm6502::error::AssemblerError;
use asm6502::instruction::{Address, Instruction, Operand};
use asm6502::instructions::AddressMode;
use asm6502::parser::{
    parse_comment_line, parse_directive, parse_empty_line, parse_instruction, parse_label,
    parse_line, parse_operand, parse_operation, Line,
};

#[test]
fn test_parse_empty_new_line_no_spaces() {
    assert_eq!(parse_empty_line("\n"), Ok(("", ())))
}

#[test]
fn test_parse_empty_line_with_spaces() {
    assert_eq!(parse_empty_line("    \n"), Ok(("", ())))
}

#[test]
fn test_parse_empty_line_with_tabs() {
    assert_eq!(parse_empty_line("\t\n"), Ok(("", ())))
}

#[test]
fn test_parse_comment_no_space_no_line_end() {
    assert_eq!(parse_comment_line("; Hi"), Ok(("", ())))
}

#[test]
fn test_parse_comment_space_line_end_no_content() {
    assert_eq!(parse_comment_line("    ;\n"), Ok(("", ())))
}

#[test]
fn test_parse_label_no_space() {
    assert_eq!(parse_label("decrement:"), Ok(("", "decrement".to_string())))
}

#[test]
fn test_parse_label_with_spaces() {
    assert_eq!(
        parse_label("    decrement:"),
        Ok(("", "decrement".to_string()))
    )
}

#[test]
fn test_parse_label_with_spaces_end() {
    assert_eq!(
        parse_label("    decrement:  "),
        Ok(("", "decrement".to_string()))
    )
}

#[test]
fn test_parse_label_with_underscore_in_front() {
    assert_eq!(
        parse_label("_decrement: "),
        Ok(("", "_decrement".to_string()))
    )
}

#[test]
fn test_parse_label_snake_case() {
    assert_eq!(
        parse_label("decrement_now:"),
        Ok(("", "decrement_now".to_string()))
    )
}

#[test]
fn test_parse_label_capital_letters() {
    assert_eq!(parse_label("DECREMENT:"), Ok(("", "DECREMENT".to_string())))
}

#[test]
fn test_parse_directive_org_valid_address() {
    assert_eq!(
        parse_directive(".ORG $8000"),
        Ok(("", Ok(Directive::Org(0x8000))))
    )
}

#[test]
fn test_parse_directive_org_lowercase_valid_address() {
    assert_eq!(
        parse_directive(".org $8000"),
        Ok(("", Ok(Directive::Org(0x8000))))
    )
}

#[test]
fn test_parse_directive_org_invalid_address() {
    assert_eq!(
        parse_directive(".ORG $80000"),
        Ok((
            "",
            Err(AssemblerError::ParseErrorNom(
                "Failed to parse to u16".to_string()
            ))
        ))
    )
}

#[test]
fn test_parse_directive_invalid_directive() {
    assert_eq!(
        parse_directive(".NOTHING $8000"),
        Ok((
            "",
            Err(AssemblerError::InvalidDirective("NOTHING".to_string()))
        ))
    )
}

#[test]
fn test_parse_jmp_with_label() {
    assert_eq!(
        parse_operand("JUMP", 0),
        Ok(("", Ok(Operand::Label("JUMP".to_string()))))
    )
}

#[test]
fn test_parse_operation_only() {
    assert_eq!(parse_operation("LDA"), Ok(("", "LDA")))
}

#[test]
fn test_parse_operand_accumalator() {
    assert_eq!(
        parse_operand("A", 0),
        Ok((
            "",
            Ok(Operand::Address(Address {
                address: 0,
                address_mode: AddressMode::Accumulator
            }))
        ))
    )
}

#[test]
fn test_parse_operand_accumalator_lowercase() {
    assert_eq!(
        parse_operand("a", 0),
        Ok((
            "",
            Ok(Operand::Address(Address {
                address: 0,
                address_mode: AddressMode::Accumulator
            }))
        ))
    )
}

#[test]
fn test_parse_operand_immediate() {
    assert_eq!(
        parse_operand("#$44", 0),
        Ok((
            "",
            Ok(Operand::Address(Address {
                address: 0x44,
                address_mode: AddressMode::Immediate
            }))
        ))
    );
}

#[test]
fn test_parse_operand_absolute() {
    assert_eq!(
        parse_operand("$4400", 0),
        Ok((
            "",
            Ok(Operand::Address(Address {
                address: 0x4400,
                address_mode: AddressMode::Absolute
            }))
        ))
    )
}

#[test]
fn test_parse_operand_absolute_x() {
    assert_eq!(
        parse_operand("$4400,X", 0),
        Ok((
            "",
            Ok(Operand::Address(Address {
                address: 0x4400,
                address_mode: AddressMode::AbsoluteX
            }))
        ))
    )
}

#[test]
fn test_parse_operand_absolute_y() {
    assert_eq!(
        parse_operand("$4400,Y", 0),
        Ok((
            "",
            Ok(Operand::Address(Address {
                address: 0x4400,
                address_mode: AddressMode::AbsoluteY
            }))
        ))
    )
}

#[test]
fn test_parse_operand_indirect() {
    assert_eq!(
        parse_operand("($4400)", 0),
        Ok((
            "",
            Ok(Operand::Address(Address {
                address: 0x4400,
                address_mode: AddressMode::Indirect
            }))
        ))
    )
}

#[test]
fn test_parse_operand_indirect_x() {
    assert_eq!(
        parse_operand("($44,X)", 0),
        Ok((
            "",
            Ok(Operand::Address(Address {
                address: 0x44,
                address_mode: AddressMode::IndirectX
            }))
        ))
    )
}

#[test]
fn test_parse_operand_indirect_y() {
    assert_eq!(
        parse_operand("($44),Y", 0),
        Ok((
            "",
            Ok(Operand::Address(Address {
                address: 0x44,
                address_mode: AddressMode::IndirectY
            }))
        ))
    )
}

#[test]
fn test_parse_operand_zero_page() {
    assert_eq!(
        parse_operand("$44", 0),
        Ok((
            "",
            Ok(Operand::Address(Address {
                address: 0x44,
                address_mode: AddressMode::ZeroPage
            }))
        ))
    )
}

#[test]
fn test_parse_operand_zero_page_x() {
    assert_eq!(
        parse_operand("$44,X", 0),
        Ok((
            "",
            Ok(Operand::Address(Address {
                address: 0x44,
                address_mode: AddressMode::ZeroPageX
            }))
        ))
    )
}

#[test]
fn test_parse_operand_zero_page_y() {
    assert_eq!(
        parse_operand("$44,Y", 0),
        Ok((
            "",
            Ok(Operand::Address(Address {
                address: 0x44,
                address_mode: AddressMode::ZeroPageY
            }))
        ))
    )
}

#[test]
fn test_parse_instruction_lda_no_comment_beginning_spacing() {
    assert_eq!(
        parse_instruction("    LDA #$44", 0),
        Ok((
            "",
            Ok(Instruction {
                opcode: "LDA".to_string(),
                operand: Some(Operand::Address(Address {
                    address: 0x44,
                    address_mode: AddressMode::Immediate
                }))
            })
        ))
    )
}

#[test]
fn test_parse_instruction_lda_with_comment_multi_spacing() {
    assert_eq!(
        parse_instruction("    LDA #$44    ; This is a comment", 0),
        Ok((
            "",
            Ok(Instruction {
                opcode: "LDA".to_string(),
                operand: Some(Operand::Address(Address {
                    address: 0x44,
                    address_mode: AddressMode::Immediate
                }))
            })
        ))
    )
}

#[test]
fn test_parse_instruction_lda_with_comment_multi_spacing_zero_page_address() {
    assert_eq!(
        parse_instruction("    LDA $44,X          ; Another comment", 0),
        Ok((
            "",
            Ok(Instruction {
                opcode: "LDA".to_string(),
                operand: Some(Operand::Address(Address {
                    address: 0x44,
                    address_mode: AddressMode::ZeroPageX
                }))
            })
        ))
    )
}

#[test]
fn test_parse_instruction_lda_absolute_address() {
    assert_eq!(
        parse_instruction("LDA $c000", 0),
        Ok((
            "",
            Ok(Instruction {
                opcode: "LDA".to_string(),
                operand: Some(Operand::Address(Address {
                    address: 0xC000,
                    address_mode: AddressMode::Absolute
                }))
            })
        ))
    )
}

#[test]
fn test_parse_instruction_lda_absolute_x_address() {
    assert_eq!(
        parse_instruction("LDA $c000,X", 0),
        Ok((
            "",
            Ok(Instruction {
                opcode: "LDA".to_string(),
                operand: Some(Operand::Address(Address {
                    address: 0xC000,
                    address_mode: AddressMode::AbsoluteX
                }))
            })
        ))
    )
}

#[test]
fn test_parse_instruction_lda_absolute_y_address() {
    assert_eq!(
        parse_instruction("LDA $c000,Y", 0),
        Ok((
            "",
            Ok(Instruction {
                opcode: "LDA".to_string(),
                operand: Some(Operand::Address(Address {
                    address: 0xC000,
                    address_mode: AddressMode::AbsoluteY
                }))
            })
        ))
    )
}

#[test]
fn test_parse_instruction_lda_indirect_address() {
    assert_eq!(
        parse_instruction("LDA ($c000)", 0),
        Ok((
            "",
            Ok(Instruction {
                opcode: "LDA".to_string(),
                operand: Some(Operand::Address(Address {
                    address: 0xC000,
                    address_mode: AddressMode::Indirect
                }))
            })
        ))
    )
}

#[test]
fn test_parse_instruction_lda_indexed_indirect_address() {
    assert_eq!(
        parse_instruction("LDA ($c0,X)", 0),
        Ok((
            "",
            Ok(Instruction {
                opcode: "LDA".to_string(),
                operand: Some(Operand::Address(Address {
                    address: 0xC0,
                    address_mode: AddressMode::IndirectX
                }))
            })
        ))
    )
}

#[test]
fn test_parse_instruction_brk_with_comment_no_operand() {
    assert_eq!(
        parse_instruction("    BRK  ; End of program", 0),
        Ok((
            "",
            Ok(Instruction {
                opcode: "BRK".to_string(),
                operand: None
            })
        ))
    )
}

#[test]
fn test_parse_instruction_brk_with_eof() {
    assert_eq!(
        parse_instruction("BRK", 0),
        Ok((
            "",
            Ok(Instruction {
                opcode: "BRK".to_string(),
                operand: None
            })
        ))
    )
}

#[test]
fn test_parse_instruction_lda_with_comment_no_content() {
    assert_eq!(
        parse_instruction("LDA #$44 ;", 0),
        Ok((
            "",
            Ok(Instruction {
                opcode: "LDA".to_string(),
                operand: Some(Operand::Address(Address {
                    address: 0x44,
                    address_mode: AddressMode::Immediate
                }))
            })
        ))
    )
}

#[test]
fn test_parse_line_instruction() {
    assert_eq!(
        parse_line("LDA #$44", 0),
        Ok(Line::Instruction(Instruction {
            opcode: "LDA".to_string(),
            operand: Some(Operand::Address(Address {
                address: 0x44,
                address_mode: AddressMode::Immediate
            }))
        }))
    )
}

#[test]
fn test_parse_line_label() {
    assert_eq!(
        parse_line("decrement:", 0),
        Ok(Line::Label("decrement".to_string()))
    )
}

#[test]
fn test_parse_line_comment() {
    assert_eq!(parse_line("; This is a comment line", 0), Ok(Line::Comment))
}

#[test]
fn test_parse_line_empty_line() {
    assert_eq!(parse_line("\n\n", 0), Ok(Line::EmptyLine))
}

#[test]
fn test_parse_invalid_line() {
    assert_eq!(
        parse_line("======", 1),
        Err(AssemblerError::ParseError {
            line: 1,
            msg: "Unexpected token".to_string()
        })
    );
}

#[test]
fn test_parse_line_directive() {
    assert_eq!(
        parse_line(".ORG $8000", 0),
        Ok(Line::Directive(Directive::Org(0x8000)))
    )
}

#[test]
fn test_parse_line_overflowing_org_differs_from_unknown_directive() {
    assert_eq!(
        parse_line(".ORG $80000", 1),
        Err(AssemblerError::ParseErrorNom(
            "Failed to parse to u16".to_string()
        ))
    );
    assert_eq!(
        parse_line(".NOTHING $8000", 1),
        Err(AssemblerError::InvalidDirective("NOTHING".to_string()))
    );
}

#[test]
fn test_parse_line_unknown_mnemonic_is_invalid_opcode() {
    assert_eq!(
        parse_line("FOO #$44", 3),
        Err(AssemblerError::InvalidOpCode {
            msg: "FOO is invalid.".to_string(),
            line: 3
        })
    );
}

#[test]
fn test_parse_line_illegal_mode_is_invalid_opcode() {
    assert_eq!(
        parse_line("STA #$44", 2),
        Err(AssemblerError::InvalidOpCode {
            msg: "STA does not support Immediate addressing.".to_string(),
            line: 2
        })
    );
}

#[test]
fn test_parse_line_label_operand_rejected_for_lda() {
    assert_eq!(
        parse_line("LDA somewhere", 5),
        Err(AssemblerError::InvalidOpCode {
            msg: "LDA does not support labels".to_string(),
            line: 5
        })
    );
}

#[test]
fn test_parse_line_unparseable_operand_text() {
    assert_eq!(
        parse_line("LDA 123", 2),
        Err(AssemblerError::IOError(
            "could not parse operand: 123".to_string()
        ))
    );
}

#[test]
fn test_parse_line_bad_hex_digit_is_parse_error() {
    assert_eq!(
        parse_line("LDA $4G", 7),
        Err(AssemblerError::ParseError {
            msg: "invalid digit found in string".to_string(),
            line: 7
        })
    );
}

#[test]
fn test_parse_line_branch_with_direct_address_is_rejected() {
    assert_eq!(
        parse_line("BNE $44", 4),
        Err(AssemblerError::InvalidOpCode {
            msg: "BNE does not support ZeroPage addressing.".to_string(),
            line: 4
        })
    );
}

#[test]
fn test_parse_line_branch_with_label_passes_validation() {
    assert_eq!(
        parse_line("BNE loop", 4),
        Ok(Line::Instruction(Instruction {
            opcode: "BNE".to_string(),
            operand: Some(Operand::Label("loop".to_string()))
        }))
    );
}

#[test]
fn test_parse_line_accumulator_shift() {
    assert_eq!(
        parse_line("LSR A", 1),
        Ok(Line::Instruction(Instruction {
            opcode: "LSR".to_string(),
            operand: Some(Operand::Address(Address {
                address: 0,
                address_mode: AddressMode::Accumulator
            }))
        }))
    );
}

#[test]
fn test_parse_label_with_unicode_letters() {
    assert_eq!(
        parse_label("étiquette:"),
        Ok(("", "étiquette".to_string()))
    );
}

#[test]
fn test_parse_line_unicode_whitespace_operand_field_means_no_operand() {
    assert_eq!(
        parse_line("LDA \u{00A0}", 1),
        Err(AssemblerError::InvalidOpCode {
            msg: "LDA requires an address.".to_string(),
            line: 1
        })
    );
}

#[test]
fn test_parse_line_lowercase_mnemonic_passes_validation() {
    assert_eq!(
        parse_line("lda #$44", 0),
        Ok(Line::Instruction(Instruction {
            opcode: "lda".to_string(),
            operand: Some(Operand::Address(Address {
                address: 0x44,
                address_mode: AddressMode::Immediate
            }))
        }))
    );
}

#[test]
fn test_parse_operand_digit_count_beats_value() {
    // Leading zeros push the token over two characters, so the mode is
    // absolute even though the value fits a zero page.
    assert_eq!(
        parse_operand("$0044", 0),
        Ok((
            "",
            Ok(Operand::Address(Address {
                address: 0x44,
                address_mode: AddressMode::Absolute
            }))
        ))
    );
}

#[test]
fn test_parse_operand_unknown_index_suffix_is_ignored() {
    assert_eq!(
        parse_operand("$44,Z", 0),
        Ok((
            "",
            Ok(Operand::Address(Address {
                address: 0x44,
                address_mode: AddressMode::ZeroPage
            }))
        ))
    );
}

#[test]
fn test_parse_operand_wide_indirect_leaves_index_suffix() {
    // Three digits no longer fit the indirect-indexed form, so the plain
    // indirect form matches and the suffix is left over.
    assert_eq!(
        parse_operand("($444),Y", 0),
        Ok((
            ",Y",
            Ok(Operand::Address(Address {
                address: 0x444,
                address_mode: AddressMode::Indirect
            }))
        ))
    );
}

#[test]
fn test_parse_operand_immediate_allows_space_after_prefix() {
    assert_eq!(
        parse_operand("#$ 44", 0),
        Ok((
            "",
            Ok(Operand::Address(Address {
                address: 0x44,
                address_mode: AddressMode::Immediate
            }))
        ))
    );
}

#[test]
fn test_parse_operand_plus_sign_counts_toward_digit_count() {
    assert_eq!(
        parse_operand("$+44", 0),
        Ok((
            "",
            Ok(Operand::Address(Address {
                address: 0x44,
                address_mode: AddressMode::Absolute
            }))
        ))
    );
}

#[test]
fn test_parse_line_missing_space_before_operand() {
    assert_eq!(
        parse_line("LDA$44", 1),
        Err(AssemblerError::ParseError {
            line: 1,
            msg: "Unexpected token".to_string()
        })
    );
}

#[test]
fn test_parse_line_purely_numeric_label_is_rejected() {
    assert_eq!(
        parse_line("123:", 1),
        Err(AssemblerError::ParseError {
            line: 1,
            msg: "Unexpected token".to_string()
        })
    );
}

#[test]
fn test_parse_line_operand_on_implied_mnemonic() {
    assert_eq!(
        parse_line("BRK $44", 1),
        Err(AssemblerError::InvalidOpCode {
            msg: "BRK does not take an address.".to_string(),
            line: 1
        })
    );
}
