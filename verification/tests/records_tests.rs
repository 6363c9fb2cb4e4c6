use macluhan::records::{DecodeStep, EAGAIN, ReadOutcome, SIGINFO_RECORD_LEN, SigError, decode_read, record_signo};

fn record(signo: u32) -> Vec<u8> {
    let mut buf = vec![0u8; SIGINFO_RECORD_LEN];
    buf[..4].copy_from_slice(&signo.to_le_bytes());
    buf
}

#[test]
fn whole_record_delivers_its_signal_number() {
    assert_eq!(decode_read(ReadOutcome::Data(record(15))), DecodeStep::Deliver(15));
    assert_eq!(decode_read(ReadOutcome::Data(record(2))), DecodeStep::Deliver(2));
}

#[test]
fn signal_number_is_little_endian_in_the_record() {
    assert_eq!(record_signo(&record(257)), 257);
    let mut buf = record(0);
    buf[0] = 1;
    buf[1] = 1;
    assert_eq!(record_signo(&buf), 257);
    assert_eq!(decode_read(ReadOutcome::Data(buf)), DecodeStep::Deliver(257));
}

#[test]
fn short_read_is_invalid_data() {
    assert_eq!(
        decode_read(ReadOutcome::Data(vec![15u8, 0, 0, 0, 0, 0, 0, 0, 0, 0])),
        DecodeStep::Fail(SigError::InvalidData)
    );
}

#[test]
fn long_read_is_invalid_data() {
    assert_eq!(
        decode_read(ReadOutcome::Data(vec![0u8; SIGINFO_RECORD_LEN + 1])),
        DecodeStep::Fail(SigError::InvalidData)
    );
}

#[test]
fn empty_read_is_invalid_data() {
    assert_eq!(decode_read(ReadOutcome::Data(Vec::new())), DecodeStep::Fail(SigError::InvalidData));
}

#[test]
fn would_block_is_retried_not_reported() {
    assert_eq!(decode_read(ReadOutcome::Failed(EAGAIN)), DecodeStep::ClearAndRetry);
}

#[test]
fn other_errno_is_an_os_failure() {
    assert_eq!(decode_read(ReadOutcome::Failed(5)), DecodeStep::Fail(SigError::Os(5)));
    assert_eq!(decode_read(ReadOutcome::Failed(9)), DecodeStep::Fail(SigError::Os(9)));
}
