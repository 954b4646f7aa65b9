use bili_cli::error::Error;

#[test]
fn errors_describe_themselves() {
    assert_eq!(Error::RedirectResolutionFailure.message(), "resolve short links error");
    assert_eq!(Error::HTTPStatusError(416).message(), "HTTP status 416");
    assert_eq!(Error::MergeProcessError(1).message(), "FFMPEG 未能成功运行 : EXIT CODE : 1");
    assert_eq!(Error::MergeProcessError(-11).message(), "FFMPEG 未能成功运行 : EXIT CODE : -11");
    assert_eq!(Error::ContentLengthMissing.message(), "未能取得文件长度");
}

#[test]
fn every_error_has_a_message() {
    let all = [
        Error::UnresolvableURL,
        Error::RedirectResolutionFailure,
        Error::MetadataFetchError,
        Error::HTTPStatusError(500),
        Error::ContentLengthMissing,
        Error::StreamAbort,
        Error::MergeProcessError(2),
        Error::FileSystemError,
    ];
    for (i, a) in all.iter().enumerate() {
        assert!(!a.message().is_empty());
        for b in all.iter().skip(i + 1) {
            assert_ne!(a.message(), b.message());
        }
    }
}
