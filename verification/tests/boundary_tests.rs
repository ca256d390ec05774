use svg_to_pdf::boundary::{
    accept_upload, reject, reply_for, upload_form, HttpReply, UploadError, MAX_UPLOAD_BYTES,
    UPLOAD_FORM,
};
use svg_to_pdf::error::{MeasureFailure, RenderError};

#[test]
fn upload_of_text_is_accepted_verbatim() {
    let markup = "<svg width=\"300\" height=\"150\"></svg>";
    assert_eq!(accept_upload(Some(markup.as_bytes().to_vec())), Ok(markup.to_string()));
}

#[test]
fn upload_of_multibyte_text_is_decoded() {
    let bytes: Vec<u8> = vec![0x3c, 0xc3, 0xa9, 0xe4, 0xb8, 0x96, 0xf0, 0x9f, 0x98, 0x80, 0x3e];
    assert_eq!(accept_upload(Some(bytes)), Ok("<\u{00e9}\u{4e16}\u{1f600}>".to_string()));
}

#[test]
fn empty_upload_is_empty_markup() {
    assert_eq!(accept_upload(Some(Vec::new())), Ok(String::new()));
}

#[test]
fn missing_part_is_rejected() {
    assert_eq!(accept_upload(None), Err(UploadError::Missing));
}

#[test]
fn bytes_that_are_no_text_are_rejected() {
    assert_eq!(accept_upload(Some(vec![0x3c, 0xff, 0x3e])), Err(UploadError::NotText));
    assert_eq!(accept_upload(Some(vec![0xc3])), Err(UploadError::NotText));
    assert_eq!(accept_upload(Some(vec![0xed, 0xa0, 0x80])), Err(UploadError::NotText));
}

#[test]
fn upload_limit_is_two_mebibytes() {
    assert_eq!(MAX_UPLOAD_BYTES, 2 * 1024 * 1024);
    let at_limit = vec![b' '; MAX_UPLOAD_BYTES];
    assert_eq!(accept_upload(Some(at_limit)).map(|text| text.len()), Ok(MAX_UPLOAD_BYTES));
    let over_limit = vec![b' '; MAX_UPLOAD_BYTES + 1];
    assert_eq!(accept_upload(Some(over_limit)), Err(UploadError::TooLarge));
}

#[test]
fn size_is_judged_before_text() {
    let over_limit = vec![0xff; MAX_UPLOAD_BYTES + 1];
    assert_eq!(accept_upload(Some(over_limit)), Err(UploadError::TooLarge));
}

#[test]
fn rejections() {
    assert_eq!(
        reject(UploadError::Missing),
        HttpReply { status: 400, content_type: None, body: b"Invalid file".to_vec() }
    );
    assert_eq!(
        reject(UploadError::NotText),
        HttpReply { status: 400, content_type: None, body: b"Invalid file".to_vec() }
    );
    assert_eq!(
        reject(UploadError::TooLarge),
        HttpReply { status: 413, content_type: None, body: b"File too large".to_vec() }
    );
}

#[test]
fn pdf_is_replied_with_its_media_type() {
    let pdf = b"%PDF-1.4\n%%EOF\n".to_vec();
    assert_eq!(
        reply_for(Ok(pdf.clone())),
        HttpReply { status: 200, content_type: Some("application/pdf".to_string()), body: pdf }
    );
}

#[test]
fn failure_is_replied_as_server_error_with_its_message() {
    let error = RenderError::MeasurementFailed(MeasureFailure::ElementNotFound);
    assert_eq!(
        reply_for(Err(error)),
        HttpReply {
            status: 500,
            content_type: None,
            body: b"measurement failed: no graphic element found".to_vec(),
        }
    );
    let reply = reply_for(Err(RenderError::PrintFailed("caf\u{00e9}".to_string())));
    assert_eq!(reply.status, 500);
    assert_eq!(reply.body, "print failed: caf\u{00e9}".as_bytes().to_vec());
}

#[test]
fn upload_form_page() {
    let reply = upload_form();
    assert_eq!(reply.status, 200);
    assert_eq!(reply.content_type, Some("text/html; charset=utf-8".to_string()));
    assert_eq!(reply.body, UPLOAD_FORM.as_bytes().to_vec());
    assert!(UPLOAD_FORM.contains("action=\"/render\""));
    assert!(UPLOAD_FORM.contains("enctype=\"multipart/form-data\""));
}
