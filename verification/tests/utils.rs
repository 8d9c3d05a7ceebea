use record_service::cpi::{
    associated_token_address_seeds, class_address_seeds, group_address_seeds, mint_address_seeds,
    record_address_seeds, SignerSeeds,
};
use record_service::error::ProgramError;
use record_service::token2022::constants::TOKEN_2022_PROGRAM_ID;
use record_service::processor::{decode_instruction, RecordInstruction};
use record_service::utils::{write_bytes, ByteReader, ByteWriter};

#[test]
fn byte_reader_reads_values_in_order() {
    let data = [1u8, 7, 0, 0, 0, 0, 0, 0, 0];
    let mut reader = ByteReader::new(&data);
    assert_eq!(reader.read::<bool>(), Ok(true));
    assert_eq!(reader.read::<u64>(), Ok(7));
    assert_eq!(reader.remaining_bytes(), 0);
    assert_eq!(reader.read::<u8>(), Err(ProgramError::InvalidInstructionData));
}

#[test]
fn byte_reader_refuses_a_byte_that_is_no_bool() {
    let data = [2u8];
    let mut reader = ByteReader::new(&data);
    assert_eq!(reader.read::<bool>(), Err(ProgramError::InvalidInstructionData));
    assert_eq!(reader.remaining_bytes(), 1);
}

#[test]
fn byte_reader_reads_length_prefixed_strings_and_bytes() {
    let data = [4u8, b't', b'e', b's', b't', 2, 0xff, 0xfe, b'x'];
    let mut reader = ByteReader::new(&data);
    assert_eq!(reader.read_str_with_length(), Ok("test"));
    assert_eq!(reader.read_bytes_with_length(), Ok(&[0xff, 0xfe][..]));
    assert_eq!(reader.remaining_bytes(), 1);
    assert_eq!(reader.read_str(1), Ok("x"));
}

#[test]
fn byte_reader_refuses_bytes_that_are_no_utf8() {
    let data = [2u8, 0xff, 0xfe];
    let mut reader = ByteReader::new(&data);
    assert_eq!(reader.read_str_with_length(), Err(ProgramError::InvalidInstructionData));
    let mut reader = ByteReader::new_with_offset(&data, 1);
    assert_eq!(reader.read_str(2), Err(ProgramError::InvalidInstructionData));
    let mut reader = ByteReader::new_with_offset(&data, 1);
    assert_eq!(reader.read_bytes(2), Ok(&[0xff, 0xfe][..]));
}

#[test]
fn byte_reader_refuses_reading_past_the_end() {
    let data = [5u8, b'a', b'b'];
    let mut reader = ByteReader::new(&data);
    assert_eq!(reader.read_str_with_length(), Err(ProgramError::InvalidInstructionData));
    let mut reader = ByteReader::new_with_offset(&data, 2);
    assert_eq!(reader.read_bytes(2), Err(ProgramError::InvalidInstructionData));
    assert_eq!(reader.remaining_bytes(), 1);
}

#[test]
fn byte_reader_reads_at_an_offset() {
    let data = [9u8, 0x10, 0x20, 0x30, 0x40];
    assert_eq!(ByteReader::read_with_offset::<u32>(&data, 1), Ok(0x4030_2010));
    assert_eq!(ByteReader::read_with_offset::<u32>(&data, 2), Err(ProgramError::InvalidInstructionData));
    assert_eq!(ByteReader::read_with_offset::<i64>(&data, 0), Err(ProgramError::InvalidInstructionData));
}

#[test]
fn byte_reader_reads_optional_values() {
    let none = [0u8];
    let some = [1u8, 42];
    let bad = [2u8, 42];
    assert_eq!(ByteReader::read_optional_with_offset::<u8>(&none, 0), Ok(None));
    assert_eq!(ByteReader::read_optional_with_offset::<u8>(&some, 0), Ok(Some(42)));
    assert_eq!(ByteReader::read_optional_with_offset::<u8>(&bad, 0), Err(ProgramError::InvalidInstructionData));
    assert_eq!(ByteReader::read_optional_with_offset::<u64>(&some, 0), Err(ProgramError::InvalidInstructionData));
}

#[test]
fn byte_writer_writes_values_in_order() {
    let mut buffer = [0u8; 12];
    let mut writer = ByteWriter::new(&mut buffer);
    assert_eq!(writer.write(true), Ok(()));
    assert_eq!(writer.write_str_with_length("ab"), Ok(()));
    assert_eq!(writer.write_bytes_with_length(&[7, 8]), Ok(()));
    assert_eq!(writer.write(0x0102_0304u32), Ok(()));
    assert_eq!(writer.remaining_bytes(), 1);
    assert_eq!(writer.write(1u64), Err(ProgramError::InvalidInstructionData));
    assert_eq!(buffer, [1, 2, b'a', b'b', 2, 7, 8, 4, 3, 2, 1, 0]);
}

#[test]
fn byte_writer_refuses_writing_past_the_end() {
    let mut buffer = [0u8; 3];
    let mut writer = ByteWriter::new_with_offset(&mut buffer, 1);
    assert_eq!(writer.write_str("abc"), Err(ProgramError::InvalidInstructionData));
    assert_eq!(writer.write_bytes(&[9, 9]), Ok(()));
    assert_eq!(buffer, [0, 9, 9]);
}

#[test]
fn byte_writer_writes_at_an_offset() {
    let mut buffer = [0u8; 4];
    assert_eq!(ByteWriter::write_with_offset(&mut buffer, 1, 0xbeefu32), Err(ProgramError::InvalidInstructionData));
    assert_eq!(ByteWriter::write_with_offset(&mut buffer, 2, 0x1234i64), Err(ProgramError::InvalidInstructionData));
    assert_eq!(ByteWriter::write_with_offset(&mut buffer, 0, 0xbeefu32), Ok(()));
    assert_eq!(buffer, [0xef, 0xbe, 0, 0]);
}

#[test]
fn written_values_read_back() {
    let mut buffer = [0u8; 16];
    let mut writer = ByteWriter::new(&mut buffer);
    writer.write_str_with_length("record").unwrap();
    writer.write(-5i64).unwrap();
    let mut reader = ByteReader::new(&buffer);
    assert_eq!(reader.read_str_with_length(), Ok("record"));
    assert_eq!(reader.read::<i64>(), Ok(-5));
}

#[test]
fn write_bytes_copies_what_fits() {
    let mut destination = [0u8; 3];
    write_bytes(&mut destination, &[1, 2, 3, 4, 5]);
    assert_eq!(destination, [1, 2, 3]);
    let mut destination = [9u8; 4];
    write_bytes(&mut destination, &[1, 2]);
    assert_eq!(destination, [1, 2, 9, 9]);
}

#[test]
fn instruction_data_selects_an_instruction() {
    let data = [4u8, 1, 2];
    let (instruction, rest) = decode_instruction(&data).unwrap();
    assert!(instruction == RecordInstruction::CreateRecord);
    assert_eq!(rest, &[1, 2]);
    let (instruction, rest) = decode_instruction(&[13]).unwrap();
    assert!(instruction == RecordInstruction::BurnTokenizedRecord);
    assert!(rest.is_empty());
}

#[test]
fn empty_or_unknown_instruction_data_is_refused() {
    assert_eq!(decode_instruction(&[]).err(), Some(ProgramError::InvalidInstructionData));
    assert_eq!(decode_instruction(&[14]).err(), Some(ProgramError::InvalidInstructionData));
    assert_eq!(decode_instruction(&[0xff, 0]).err(), Some(ProgramError::InvalidInstructionData));
}

#[test]
fn program_addresses_are_derived_from_their_seeds() {
    let key = [7u8; 32];
    let other = [8u8; 32];
    assert_eq!(class_address_seeds(&key, b"test"), vec![b"class".to_vec(), key.to_vec(), b"test".to_vec()]);
    assert_eq!(record_address_seeds(&key, b"seed"), vec![b"record".to_vec(), key.to_vec(), b"seed".to_vec()]);
    assert_eq!(mint_address_seeds(&key), vec![b"mint".to_vec(), key.to_vec()]);
    assert_eq!(group_address_seeds(&key), vec![b"group".to_vec(), key.to_vec()]);
    assert_eq!(
        associated_token_address_seeds(&key, &other),
        vec![key.to_vec(), TOKEN_2022_PROGRAM_ID.to_vec(), other.to_vec()]
    );
    let signer = SignerSeeds::Authority { record: key, bump: 253 };
    assert_eq!(signer.address_seeds(), vec![b"authority".to_vec(), key.to_vec()]);
    assert_eq!(signer.signer_seeds(), vec![b"authority".to_vec(), key.to_vec(), vec![253]]);
    let signer = SignerSeeds::Record { class: key, seed: b"s".to_vec(), bump: 1 };
    assert_eq!(signer.signer_seeds(), vec![b"record".to_vec(), key.to_vec(), b"s".to_vec(), vec![1]]);
}
