//! The assembler pipeline around parsing and resolution: parsing a whole
//! file, flattening resolved instructions to bytes, and building the padded
//! ROM image.

use vstd::prelude::*;

use crate::error::{AssemblerError, ErrorModel};
use crate::instruction::{spec_to_bytes, Instruction, InstructionModel};
use crate::parser::{parse_line, spec_parse_line, Line, LineModel};
use crate::process::instructions_model;

verus! {

/// Size of the program region of the ROM image: everything before the
/// six vector bytes.
pub const ROM_PROGRAM_CAPACITY: usize = 0xFFA;

/// Size of the whole ROM image.
pub const ROM_IMAGE_SIZE: usize = 0x1000;

/// The models of a sequence of source lines.
pub open spec fn strings_model(s: Seq<String>) -> Seq<Seq<char>> {
    s.map_values(|t: String| t@)
}

/// The models of parsed lines paired with their numbers.
pub open spec fn lines_model(s: Seq<(Line, usize)>) -> Seq<(LineModel, usize)> {
    s.map_values(|p: (Line, usize)| (p.0@, p.1))
}

/// Parsing a file from line `i` on: each line parsed under its 1-based
/// number, stopping at the first failure.
pub open spec fn spec_parse_file_from(ls: Seq<Seq<char>>, i: int) -> Result<
    Seq<(LineModel, usize)>,
    ErrorModel,
>
    decreases ls.len() - i,
    when 0 <= i <= ls.len() && ls.len() <= usize::MAX
{
    if i == ls.len() {
        Ok(Seq::empty())
    } else {
        match spec_parse_line(ls[i], (i + 1) as usize) {
            Ok(lm) => match spec_parse_file_from(ls, i + 1) {
                Ok(rest) => Ok(seq![(lm, (i + 1) as usize)] + rest),
                Err(e) => Err(e),
            },
            Err(e) => Err(e),
        }
    }
}

/// Parses every line of a source file in order, pairing each parsed line
/// with its 1-based number; the first line that fails to parse aborts the
/// whole file with its error.
pub fn parse_file(str_lines: Vec<String>) -> (r: Result<Vec<(Line, usize)>, AssemblerError>)
    ensures
        match spec_parse_file_from(strings_model(str_lines@), 0) {
            Ok(parsed) => r matches Ok(v) && lines_model(v@) == parsed,
            Err(e) => r matches Err(err) && err@ == e,
        },
{
    let ghost src = strings_model(str_lines@);
    let mut lines: Vec<(Line, usize)> = Vec::new();
    let mut i: usize = 0;
    while i < str_lines.len()
        invariant
            i <= src.len(),
            src == strings_model(str_lines@),
            src.len() == str_lines@.len(),
            match spec_parse_file_from(src, i as int) {
                Ok(rest) => spec_parse_file_from(src, 0) == Ok::<_, ErrorModel>(
                    lines_model(lines@) + rest,
                ),
                Err(e) => spec_parse_file_from(src, 0) == Err::<Seq<(LineModel, usize)>, _>(e),
            },
        decreases src.len() - i,
    {
        let line_num = i + 1;
        proof {
            assert(src[i as int] == str_lines@[i as int]@);
        }
        match parse_line(str_lines[i].as_str(), line_num) {
            Ok(line) => {
                let ghost before = lines@;
                let ghost x = line@;
                lines.push((line, line_num));
                proof {
                    assert(lines_model(lines@) =~= lines_model(before).push((x, line_num)));
                    match spec_parse_file_from(src, i + 1 as int) {
                        Ok(rest) => {
                            assert(lines_model(before).push((x, line_num)) + rest =~= lines_model(
                                before,
                            ) + (seq![(x, line_num)] + rest));
                        },
                        Err(_) => {},
                    }
                }
            },
            Err(e) => {
                return Err(e);
            },
        }
        i += 1;
    }
    proof {
        match spec_parse_file_from(src, src.len() as int) {
            Ok(rest) => {
                assert(lines_model(lines@) + rest =~= lines_model(lines@));
            },
            Err(_) => {},
        }
    }
    Ok(lines)
}

/// The bytes a sequence of instructions encodes to from position `k` on,
/// in order, stopping at the first instruction that cannot be encoded.
pub open spec fn spec_program_bytes_from(instrs: Seq<InstructionModel>, k: int) -> Result<
    Seq<u8>,
    ErrorModel,
>
    decreases instrs.len() - k,
    when 0 <= k <= instrs.len()
{
    if k == instrs.len() {
        Ok(Seq::empty())
    } else {
        match spec_to_bytes(instrs[k]) {
            Ok(bs) => match spec_program_bytes_from(instrs, k + 1) {
                Ok(rest) => Ok(bs + rest),
                Err(e) => Err(e),
            },
            Err(e) => Err(e),
        }
    }
}

/// Encodes a resolved instruction sequence to one flat byte sequence; the
/// first instruction that cannot be encoded aborts with its error.
pub fn to_bytes(lines: Vec<Instruction>) -> (r: Result<Vec<u8>, AssemblerError>)
    ensures
        match spec_program_bytes_from(instructions_model(lines@), 0) {
            Ok(bs) => r matches Ok(v) && v@ == bs,
            Err(e) => r matches Err(err) && err@ == e,
        },
{
    let ghost instrs = instructions_model(lines@);
    let mut bytes: Vec<u8> = Vec::new();
    let mut k: usize = 0;
    while k < lines.len()
        invariant
            k <= instrs.len(),
            instrs == instructions_model(lines@),
            instrs.len() == lines@.len(),
            match spec_program_bytes_from(instrs, k as int) {
                Ok(rest) => spec_program_bytes_from(instrs, 0) == Ok::<_, ErrorModel>(
                    bytes@ + rest,
                ),
                Err(e) => spec_program_bytes_from(instrs, 0) == Err::<Seq<u8>, _>(e),
            },
        decreases instrs.len() - k,
    {
        proof {
            assert(instrs[k as int] == lines@[k as int]@);
        }
        match lines[k].to_bytes() {
            Ok(mut bytes_res) => {
                let ghost before = bytes@;
                let ghost chunk = bytes_res@;
                bytes.append(&mut bytes_res);
                proof {
                    match spec_program_bytes_from(instrs, k + 1 as int) {
                        Ok(rest) => {
                            assert((before + chunk) + rest =~= before + (chunk + rest));
                        },
                        Err(_) => {},
                    }
                }
            },
            Err(e) => {
                return Err(e);
            },
        }
        k += 1;
    }
    proof {
        match spec_program_bytes_from(instrs, instrs.len() as int) {
            Ok(rest) => {
                assert(bytes@ + rest =~= bytes@);
            },
            Err(_) => {},
        }
    }
    Ok(bytes)
}

/// The six vector bytes that close a ROM image: the origin as a
/// little-endian reset vector, then four zero bytes for the remaining
/// interrupt vectors.
pub open spec fn vector_bytes(start: u16) -> Seq<u8> {
    seq![(start as int % 256) as u8, (start as int / 256) as u8, 0u8, 0u8, 0u8, 0u8]
}

/// The ROM image a program and an origin produce: the program bytes, zero
/// padding up to the vector area, then the six vector bytes — 4096 bytes in
/// all. A program too large for the program region is rejected.
pub open spec fn spec_padded(bytes: Seq<u8>, start: u16) -> Result<Seq<u8>, ErrorModel> {
    if bytes.len() > ROM_PROGRAM_CAPACITY {
        Err(ErrorModel::ProgramTooLarge)
    } else {
        Ok(
            bytes + Seq::new((ROM_PROGRAM_CAPACITY - bytes.len()) as nat, |_i: int| 0u8)
                + vector_bytes(start),
        )
    }
}

/// Pads assembled program bytes into a full ROM image: zero padding up to
/// the vector area, the origin as a little-endian reset vector, then four
/// zero interrupt-vector bytes. Fails when the program does not fit the
/// program region.
pub fn add_padding(bytes: Vec<u8>, start_pos: u16) -> (r: Result<Vec<u8>, AssemblerError>)
    ensures
        match spec_padded(bytes@, start_pos) {
            Ok(img) => r matches Ok(v) && v@ == img,
            Err(e) => r matches Err(err) && err@ == e,
        },
{
    let ghost original = bytes@;
    if bytes.len() > ROM_PROGRAM_CAPACITY {
        return Err(AssemblerError::ProgramTooLarge);
    }

    // Zero padding up to the vector area.
    let mut out = bytes;
    while out.len() < ROM_PROGRAM_CAPACITY
        invariant
            original.len() <= out@.len() <= ROM_PROGRAM_CAPACITY,
            out@.subrange(0, original.len() as int) == original,
            forall|i: int| original.len() <= i < out@.len() ==> out@[i] == 0u8,
        decreases ROM_PROGRAM_CAPACITY - out@.len(),
    {
        let ghost before = out@;
        out.push(0);
        proof {
            assert(out@.subrange(0, original.len() as int) =~= before.subrange(
                0,
                original.len() as int,
            ));
        }
    }

    // The reset vector, low byte then high byte.
    let lo = (start_pos % 256) as u8;
    let hi = (start_pos / 256) as u8;
    out.push(lo);
    out.push(hi);

    // The remaining interrupt vectors, zero for now.
    out.push(0);
    out.push(0);
    out.push(0);
    out.push(0);

    proof {
        assert(out@ =~= original + Seq::new(
            (ROM_PROGRAM_CAPACITY - original.len()) as nat,
            |_i: int| 0u8,
        ) + vector_bytes(start_pos));
    }
    Ok(out)
}

/// A ROM image is always exactly 4096 bytes when padding succeeds, and its
/// last six bytes are the origin's low byte, the origin's high byte, and
/// four zeros; the program bytes stand unchanged at the front and the space
/// between is zero.
pub proof fn lemma_rom_image_shape(bytes: Seq<u8>, start: u16, img: Seq<u8>)
    requires
        spec_padded(bytes, start) == Ok::<Seq<u8>, ErrorModel>(img),
    ensures
        img.len() == ROM_IMAGE_SIZE,
        img.subrange(img.len() - 6, img.len() as int) == vector_bytes(start),
        img.subrange(0, bytes.len() as int) == bytes,
        forall|i: int| bytes.len() <= i < ROM_PROGRAM_CAPACITY ==> img[i] == 0u8,
{
    assert(img.subrange(img.len() - 6, img.len() as int) =~= vector_bytes(start));
    assert(img.subrange(0, bytes.len() as int) =~= bytes);
}

} // verus!
