use std::io::Write;

use mktcb::decompress::xz;
use mktcb::error::Error;

#[test]
fn xz_round_trip() {
    let text = "--- a/x\n+++ b/x\n@@ -1 +1 @@\n-old\n+new\n";
    let mut enc = xz2::write::XzEncoder::new(Vec::new(), 6);
    enc.write_all(text.as_bytes()).unwrap();
    let data = enc.finish().unwrap();
    assert_eq!(xz(&data, "/d/p.xz"), Ok(text.to_string()));
}

#[test]
fn corrupt_xz_is_an_error() {
    let data = b"not xz at all".to_vec();
    assert_eq!(xz(&data, "/d/p.xz"), Err(Error::FailedToDecodeXz { path: "/d/p.xz".to_string() }));
}
