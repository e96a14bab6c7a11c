use hal_core::error::Error;
use hal_core::spirv::{make_spirv, make_spirv_raw, validate_and_normalize, ShaderSource};

fn le_bytes(words: &[u32]) -> Vec<u8> {
    let mut out = Vec::new();
    for w in words {
        out.push((w & 0xFF) as u8);
        out.push(((w >> 8) & 0xFF) as u8);
        out.push(((w >> 16) & 0xFF) as u8);
        out.push(((w >> 24) & 0xFF) as u8);
    }
    out
}

fn swap_groups(bytes: &[u8]) -> Vec<u8> {
    let mut out = Vec::new();
    for chunk in bytes.chunks(4) {
        out.push(chunk[3]);
        out.push(chunk[2]);
        out.push(chunk[1]);
        out.push(chunk[0]);
    }
    out
}

#[test]
fn native_module_is_accepted() {
    let words = [0x0723_0203u32, 0x0001_0000, 42, 7];
    let bytes = le_bytes(&words);
    let out = validate_and_normalize(&bytes).unwrap();
    assert_eq!(out, vec![0x0723_0203, 0x0001_0000, 42, 7]);
    assert_eq!(out[0], 0x0723_0203);
}

#[test]
fn swapped_module_round_trips() {
    let words = [0x0723_0203u32, 0xDEAD_BEEF, 0x0000_0001];
    let native = le_bytes(&words);
    let swapped = swap_groups(&native);
    let out = validate_and_normalize(&swapped).unwrap();
    assert_eq!(out, validate_and_normalize(&native).unwrap());
    assert_eq!(out, vec![0x0723_0203, 0xDEAD_BEEF, 0x0000_0001]);
}

#[test]
fn empty_input_is_malformed() {
    let bytes: Vec<u8> = Vec::new();
    assert_eq!(validate_and_normalize(&bytes), Err(Error::MalformedModule));
}

#[test]
fn ragged_input_is_malformed() {
    let bytes = vec![0x03u8, 0x02, 0x23, 0x07, 0x01];
    assert_eq!(validate_and_normalize(&bytes), Err(Error::MalformedModule));
}

#[test]
fn wrong_magic_is_rejected() {
    let bytes = le_bytes(&[0x1234_5678u32, 0]);
    assert_eq!(validate_and_normalize(&bytes), Err(Error::BadMagic));
}

#[test]
fn make_spirv_raw_yields_words() {
    let bytes = le_bytes(&[0x0723_0203u32, 5]);
    assert_eq!(make_spirv_raw(&bytes), vec![0x0723_0203, 5]);
}

#[test]
fn make_spirv_wraps_words() {
    let bytes = le_bytes(&[0x0723_0203u32, 9]);
    let ShaderSource::SpirV(words) = make_spirv(&bytes);
    assert_eq!(words, vec![0x0723_0203, 9]);
}
