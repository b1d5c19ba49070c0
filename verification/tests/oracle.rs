use varro::oracle::{decode_next_block_number, next_block_number_call_data, NextBlockNumberError};
use varro::time::TimeSpan;

#[test]
fn call_data_is_the_selector() {
    let expected = ethers_core::utils::id("nextBlockNumber()");
    assert_eq!(next_block_number_call_data(), expected.to_vec());
    assert_eq!(next_block_number_call_data().len(), 4);
}

#[test]
fn reply_is_decoded_big_endian() {
    let mut reply = vec![0u8; 32];
    reply[30] = 0x01;
    reply[31] = 0x02;
    assert_eq!(decode_next_block_number(&reply), Ok(0x0102));
    let mut big = vec![0u8; 32];
    for b in big.iter_mut().skip(24) {
        *b = 0xff;
    }
    big.push(7);
    assert_eq!(decode_next_block_number(&big), Ok(u64::MAX));
}

#[test]
fn short_and_overflowing_replies_fail() {
    assert_eq!(decode_next_block_number(&vec![0u8; 31]), Err(NextBlockNumberError::ShortReply));
    let mut reply = vec![0u8; 32];
    reply[23] = 1;
    assert_eq!(decode_next_block_number(&reply), Err(NextBlockNumberError::Overflow));
}

#[test]
fn time_spans() {
    assert!(TimeSpan::from_parts(1, 1_000_000_000).is_none());
    let t = TimeSpan::from_parts(3, 999_999_999).unwrap();
    assert_eq!((t.secs(), t.subsec_nanos()), (3, 999_999_999));
    assert_eq!(TimeSpan::from_secs(9).subsec_nanos(), 0);
}
