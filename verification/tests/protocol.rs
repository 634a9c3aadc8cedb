use oro_link::protocol::{
    read_request, read_response, read_response_bounded, write_request, write_response, Error,
    Request, Response,
};

#[test]
fn request_bytes() {
    let mut out = Vec::new();
    write_request(&Request::GetVersionMajor, &mut out);
    assert_eq!(out, vec![0x82, 0x00, 0x80]);
    assert_eq!(read_request(&out), Some(Request::GetVersionMajor));
    assert_eq!(read_request(&[0x82, 0x0B, 0x80]), None);
}

#[test]
fn response_bytes() {
    let mut out = Vec::new();
    write_response(&Response::Error(Error::InitOnly), &mut out);
    assert_eq!(out, vec![0x82, 0x02, 0x81, 0x82, 0x02, 0x80]);
    assert_eq!(read_response(&out), Some(Response::Error(Error::InitOnly)));
}

#[test]
fn text_response_capacity() {
    let mut out = Vec::new();
    write_response(&Response::String("x".repeat(64)), &mut out);
    assert_eq!(read_response_bounded(&out, 64), Some(Response::String("x".repeat(64))));
    let mut out = Vec::new();
    write_response(&Response::String("x".repeat(65)), &mut out);
    assert_eq!(read_response_bounded(&out, 64), None);
    assert_eq!(read_response(&out), Some(Response::String("x".repeat(65))));
    assert_eq!(read_response_bounded(&[0x82, 0x00, 0x80], 0), Some(Response::Okay));
}
