use bili_cli::error::Error;
use bili_cli::transfer::{
    check_status, checkpoint, content_length, plan_transfer, range_header, TransferPlan,
    TransferSession, CHUNK_SIZE, REFERER, USER_AGENT,
};

#[test]
fn partial_file_resumes_with_a_range_request() {
    let offset = checkpoint(true, Some(1000));
    assert_eq!(offset, 1000);
    let plan = plan_transfer(offset, 5000);
    assert_eq!(plan, TransferPlan::Resume(1000));
    assert_eq!(range_header(1000), "bytes=1000-");
    let mut session = TransferSession::start(offset, 5000).unwrap();
    assert_eq!(session.bytes_transferred(), 1000);
    assert_eq!(session.remaining(), 4000);
    for len in [1500u64, 1500, 1000] {
        assert_eq!(session.record_chunk(len), Ok(()));
    }
    assert_eq!(session.bytes_transferred(), 5000);
    assert_eq!(session.checkpoint_offset(), 1000);
    assert_eq!(session.expected_total_size(), 5000);
    assert!(session.is_complete());
    assert_eq!(session.finish(), Ok(()));
}

#[test]
fn complete_file_is_skipped() {
    let offset = checkpoint(true, Some(5000));
    assert_eq!(plan_transfer(offset, 5000), TransferPlan::Skip);
    let session = TransferSession::start(offset, 5000).unwrap();
    assert!(session.is_complete());
    assert_eq!(session.finish(), Ok(()));
}

#[test]
fn missing_file_starts_afresh() {
    assert_eq!(checkpoint(true, None), 0);
    assert_eq!(plan_transfer(0, 5000), TransferPlan::Fresh);
}

#[test]
fn resume_disabled_ignores_the_file() {
    assert_eq!(checkpoint(false, Some(1000)), 0);
    assert_eq!(checkpoint(false, None), 0);
    assert_eq!(plan_transfer(checkpoint(false, Some(1000)), 5000), TransferPlan::Fresh);
}

#[test]
fn empty_remote_and_no_file_is_nothing_to_do() {
    assert_eq!(plan_transfer(0, 0), TransferPlan::Skip);
}

#[test]
fn file_larger_than_remote_cannot_be_completed() {
    assert_eq!(plan_transfer(6000, 5000), TransferPlan::Resume(6000));
    assert_eq!(TransferSession::start(6000, 5000), Err(Error::StreamAbort));
}

#[test]
fn short_stream_is_an_abort() {
    let mut session = TransferSession::start(0, 5000).unwrap();
    assert_eq!(session.record_chunk(4999), Ok(()));
    assert!(!session.is_complete());
    assert_eq!(session.finish(), Err(Error::StreamAbort));
}

#[test]
fn chunk_beyond_the_total_is_an_abort() {
    let mut session = TransferSession::start(1000, 5000).unwrap();
    assert_eq!(session.record_chunk(4001), Err(Error::StreamAbort));
    assert_eq!(session.bytes_transferred(), 1000);
    assert_eq!(session.record_chunk(u64::MAX), Err(Error::StreamAbort));
    assert_eq!(session.record_chunk(4000), Ok(()));
    assert_eq!(session.record_chunk(0), Ok(()));
    assert_eq!(session.record_chunk(1), Err(Error::StreamAbort));
    assert_eq!(session.finish(), Ok(()));
}

#[test]
fn transferred_bytes_are_the_bytes_read() {
    let lens = [262144u64, 262144, 262144, 13568];
    let total: u64 = 700 + lens.iter().sum::<u64>();
    let mut session = TransferSession::start(700, total).unwrap();
    for len in lens {
        session.record_chunk(len).unwrap();
    }
    assert_eq!(session.bytes_transferred() - session.checkpoint_offset(), lens.iter().sum::<u64>());
    assert_eq!(session.finish(), Ok(()));
}

#[test]
fn range_header_names_the_offset() {
    assert_eq!(range_header(0), "bytes=0-");
    assert_eq!(range_header(1), "bytes=1-");
    assert_eq!(range_header(u64::MAX), "bytes=18446744073709551615-");
}

#[test]
fn error_statuses_stop_the_transfer() {
    assert_eq!(check_status(200), Ok(()));
    assert_eq!(check_status(206), Ok(()));
    assert_eq!(check_status(302), Ok(()));
    assert_eq!(check_status(399), Ok(()));
    assert_eq!(check_status(400), Err(Error::HTTPStatusError(400)));
    assert_eq!(check_status(403), Err(Error::HTTPStatusError(403)));
    assert_eq!(check_status(416), Err(Error::HTTPStatusError(416)));
    assert_eq!(check_status(599), Err(Error::HTTPStatusError(599)));
    assert_eq!(check_status(600), Ok(()));
}

#[test]
fn content_length_is_read_from_the_header() {
    assert_eq!(content_length(Some("5000")), Ok(5000));
    assert_eq!(content_length(Some("0")), Ok(0));
}

#[test]
fn unusable_content_length_is_missing() {
    assert_eq!(content_length(None), Err(Error::ContentLengthMissing));
    assert_eq!(content_length(Some("")), Err(Error::ContentLengthMissing));
    assert_eq!(content_length(Some("12 ")), Err(Error::ContentLengthMissing));
    assert_eq!(content_length(Some("chunked")), Err(Error::ContentLengthMissing));
    assert_eq!(content_length(Some("99999999999999999999999")), Err(Error::ContentLengthMissing));
}

#[test]
fn request_constants_are_fixed() {
    assert_eq!(REFERER, "https://www.bilibili.com");
    assert!(USER_AGENT.starts_with("Mozilla/5.0 (Macintosh; Intel Mac OS X 10_15_7)"));
    assert!(USER_AGENT.ends_with("Chrome/98.0.4758.80 Safari/537.36"));
    assert_eq!(CHUNK_SIZE, 1 << 18);
}

#[test]
fn requests_carry_the_required_headers() {
    let plain = bili_cli::transfer::request_headers(None);
    assert_eq!(plain.len(), 2);
    assert_eq!(plain[0].name, "user-agent");
    assert_eq!(plain[0].value, USER_AGENT);
    assert_eq!(plain[1].name, "referer");
    assert_eq!(plain[1].value, REFERER);
    let ranged = bili_cli::transfer::request_headers(Some(1000));
    assert_eq!(ranged.len(), 3);
    assert_eq!(ranged[0], plain[0]);
    assert_eq!(ranged[1], plain[1]);
    assert_eq!(ranged[2].name, "Range");
    assert_eq!(ranged[2].value, "bytes=1000-");
}
