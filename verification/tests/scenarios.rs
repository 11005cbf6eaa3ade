use bitconv::endian::{Big, Endian, Little, Native};
use bitconv::read::{read_signed, read_unsigned};
use bitconv::{
    to_int16, to_int32, to_int64, to_uint16, to_uint32, to_uint64, try_to_uint16, BitConvEndian,
};

#[test]
fn uint16_at_offset_two_in_both_orders() {
    let buffer = [15, 0, 0, 255, 3, 16, 39, 255, 255, 127];
    assert_eq!(65280, to_uint16::<Little>(&buffer, 2));
    assert_eq!(255, to_uint16::<Big>(&buffer, 2));
}

#[test]
fn int16_at_offset_two_little_endian() {
    let buffer = [15, 0, 0, 255, 3, 16, 39, 255, 255, 127];
    assert_eq!(-256, to_int16::<Little>(&buffer, 2));
    assert_eq!(255, to_int16::<Big>(&buffer, 2));
}

#[test]
fn uint16_at_last_index_of_ten_bytes_fails() {
    let buffer = [15, 0, 0, 255, 3, 16, 39, 255, 255, 127];
    assert!(try_to_uint16::<Little>(&buffer, 9).is_err());
    assert!(try_to_uint16::<Big>(&buffer, 9).is_err());
}

#[test]
fn eight_ff_bytes_big_endian() {
    let buffer = [255, 255, 255, 255, 255, 255, 255, 255];
    assert_eq!(18446744073709551615, to_uint64::<Big>(&buffer, 0));
    assert_eq!(-1, to_int64::<Big>(&buffer, 0));
}

#[test]
fn int32_and_int64_in_both_orders() {
    let buffer = [15, 0, 0, 128, 16, 39, 240, 216, 241, 255, 127];
    assert_eq!(-265875328, to_int32::<Little>(&buffer, 3));
    assert_eq!(-2146424848, to_int32::<Big>(&buffer, 3));
    assert_eq!(-1019801265028202496, to_int64::<Little>(&buffer, 1));
    assert_eq!(140806877927665, to_int64::<Big>(&buffer, 1));
}

#[test]
fn uint32_and_uint64_in_both_orders() {
    let buffer = [15, 0, 0, 0, 0, 16, 0, 255, 3, 0, 0, 202, 19];
    assert_eq!(261888, to_uint32::<Little>(&buffer, 6));
    assert_eq!(16712448, to_uint32::<Big>(&buffer, 6));
    let buffer = [255, 255, 255, 0, 0, 0, 0, 0, 0, 0, 170, 170, 170, 170, 170];
    assert_eq!(255, to_uint64::<Little>(&buffer, 2));
    assert_eq!(18374686479671623680, to_uint64::<Big>(&buffer, 2));
}

#[test]
fn markers_select_their_orders() {
    assert_eq!(Endian::LE, Little::as_endian());
    assert_eq!(Endian::BE, Big::as_endian());
    assert_eq!(Endian::NE, Native::as_endian());
    assert_ne!(Endian::LE, Endian::BE);
    assert_ne!(Endian::NE, Endian::LE);
}

#[test]
fn read_unsigned_weighs_bytes_by_position() {
    let data = [0x01, 0x02, 0x03, 0x04, 0x05, 0x06, 0x07, 0x08, 0x09];
    assert_eq!(0, read_unsigned(&data, 4, 0, true));
    assert_eq!(0, read_unsigned(&data, 9, 0, false));
    assert_eq!(0x03, read_unsigned(&data, 2, 1, true));
    assert_eq!(0x03, read_unsigned(&data, 2, 1, false));
    assert_eq!(0x0201, read_unsigned(&data, 0, 2, true));
    assert_eq!(0x0102, read_unsigned(&data, 0, 2, false));
    assert_eq!(0x04_0302, read_unsigned(&data, 1, 3, true));
    assert_eq!(0x02_0304, read_unsigned(&data, 1, 3, false));
    assert_eq!(0x0908_0706_0504_0302, read_unsigned(&data, 1, 8, true));
    assert_eq!(0x0203_0405_0607_0809, read_unsigned(&data, 1, 8, false));
}

#[test]
fn read_signed_is_twos_complement_of_the_width() {
    let data = [0x00, 0x80, 0xFF, 0x7F, 0xFF, 0xFF, 0xFF, 0xFF, 0xFF, 0xFE];
    assert_eq!(-128, read_signed(&data, 1, 1, true));
    assert_eq!(127, read_signed(&data, 3, 1, false));
    assert_eq!(-32768, read_signed(&data, 0, 2, true));
    assert_eq!(128, read_signed(&data, 0, 2, false));
    assert_eq!(-128, read_signed(&data, 1, 2, true));
    assert_eq!(-32513, read_signed(&data, 1, 2, false));
    assert_eq!(0x7F_FF80, read_signed(&data, 1, 3, true));
    assert_eq!(-0x7F_0081, read_signed(&data, 1, 3, false));
    assert_eq!(-0x0080_0000_0000_0002, read_signed(&data, 2, 8, false));
    assert_eq!(-0x0100_0000_0000_8001, read_signed(&data, 2, 8, true));
    assert_eq!(-2, read_signed(&data, 4, 6, false));
    assert_eq!(i64::MIN, read_signed(&[0, 0, 0, 0, 0, 0, 0, 0x80], 0, 8, true));
    assert_eq!(i64::MAX, read_signed(&[0x7F, 255, 255, 255, 255, 255, 255, 255], 0, 8, false));
}
